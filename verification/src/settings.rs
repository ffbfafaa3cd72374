//! The settings bar: its tabs, the connection form, subscriptions, queries, the
//! queryable, and the memory and rate limits.

use vstd::prelude::*;
use vstd::string::*;
use crate::command::ZenohCommand;
use crate::decimal::{parse_decimal, parse_decimal_spec};
use crate::state::SendItApp;
use crate::status::ConnectionStatus;

verus! {

/// A category tab of the settings bar.
#[derive(Debug, Clone, Copy, PartialEq, Eq, Structural)]
pub enum SystemTab {
    Connection,
    Subscriptions,
    Query,
    Queryable,
    Memory,
}

impl SystemTab {
    /// The tab's caption.
    pub open spec fn label_spec(self) -> Seq<char> {
        match self {
            SystemTab::Connection => "connection"@,
            SystemTab::Subscriptions => "subscriptions"@,
            SystemTab::Query => "query"@,
            SystemTab::Queryable => "queryable"@,
            SystemTab::Memory => "memory"@,
        }
    }

    /// The tab's caption.
    pub fn label(&self) -> (r: &'static str)
        ensures
            r@ == self.label_spec(),
    {
        match self {
            SystemTab::Connection => "connection",
            SystemTab::Subscriptions => "subscriptions",
            SystemTab::Query => "query",
            SystemTab::Queryable => "queryable",
            SystemTab::Memory => "memory",
        }
    }

    /// The tabs in the order the bar shows them.
    pub fn all() -> (r: Vec<SystemTab>)
        ensures
            r@ == seq![
                SystemTab::Connection,
                SystemTab::Subscriptions,
                SystemTab::Query,
                SystemTab::Queryable,
                SystemTab::Memory,
            ],
    {
        vec![
            SystemTab::Connection,
            SystemTab::Subscriptions,
            SystemTab::Query,
            SystemTab::Queryable,
            SystemTab::Memory,
        ]
    }
}

/// The transports the connection form offers, in the order it lists them.
pub fn transport_options() -> (r: Vec<&'static str>)
    ensures
        r@.len() == 5,
        r@[0]@ == "tcp"@,
        r@[1]@ == "udp"@,
        r@[2]@ == "quic"@,
        r@[3]@ == "ws"@,
        r@[4]@ == "tls"@,
{
    vec!["tcp", "udp", "quic", "ws", "tls"]
}

/// The connection modes the form offers, as (value, caption), in the order it lists them.
pub fn mode_options() -> (r: Vec<(&'static str, &'static str)>)
    ensures
        r@.len() == 2,
        r@[0].0@ == "client"@ && r@[0].1@ == "Client"@,
        r@[1].0@ == "peer"@ && r@[1].1@ == "Peer"@,
{
    vec![("client", "Client"), ("peer", "Peer")]
}

/// One of the transports the connection form offers.
pub open spec fn is_offered_transport(t: Seq<char>) -> bool {
    t == "tcp"@ || t == "udp"@ || t == "quic"@ || t == "ws"@ || t == "tls"@
}

/// One of the connection modes the form offers.
pub open spec fn is_offered_mode(m: Seq<char>) -> bool {
    m == "client"@ || m == "peer"@
}

/// The tab shown after a click on `tab`: a click on the open tab closes it, a click on
/// another opens that one.
pub open spec fn tab_after_click(open: Option<SystemTab>, tab: SystemTab) -> Option<SystemTab> {
    if open == Some(tab) {
        None
    } else {
        Some(tab)
    }
}

/// `v` brought into `[lo, hi]`.
pub open spec fn clamp_spec(v: nat, lo: nat, hi: nat) -> nat {
    if v < lo {
        lo
    } else if v > hi {
        hi
    } else {
        v
    }
}

/// A limit after its field was edited to `text`: the typed number brought into
/// `[lo, hi]`, or the old limit where the text is not a number.
pub open spec fn limit_after_edit(old_limit: nat, text: Seq<char>, lo: nat, hi: nat) -> nat {
    match parse_decimal_spec(text, usize::MAX as nat) {
        Some(v) => clamp_spec(v, lo, hi),
        None => old_limit,
    }
}

/// Where the connection form points: nothing (multicast discovery) for a blank address,
/// otherwise `transport/address:port`.
pub open spec fn locators_spec(transport: Seq<char>, address: Seq<char>, port: Seq<char>) -> Seq<char> {
    if address.len() == 0 {
        Seq::empty()
    } else {
        transport + "/"@ + address + ":"@ + port
    }
}

/// The query timeout typed in the form, in milliseconds, or ten seconds where the text
/// is not a number.
pub open spec fn timeout_spec(text: Seq<char>) -> nat {
    match parse_decimal_spec(text, u64::MAX as nat) {
        Some(v) => v,
        None => 10000,
    }
}

/// The alert shown once a query is sent.
pub open spec fn query_alert_spec(selector: Seq<char>) -> Seq<char> {
    "Query sent for '"@ + selector + "'. Waiting for responses..."@
}

/// Parses a typed limit as `str::parse::<usize>` does.
fn parse_limit(text: &str) -> (r: Option<usize>)
    ensures
        match r {
            Some(v) => parse_decimal_spec(text@, usize::MAX as nat) == Some(v as nat),
            None => parse_decimal_spec(text@, usize::MAX as nat) is None,
        },
{
    match parse_decimal(text, usize::MAX as u64) {
        Some(v) => Some(v as usize),
        None => None,
    }
}

/// A limit after its field was edited to `text`.
pub fn edited_limit(old_limit: usize, text: &str, lo: usize, hi: usize) -> (r: usize)
    requires
        lo <= hi,
    ensures
        r as nat == limit_after_edit(old_limit as nat, text@, lo as nat, hi as nat),
{
    match parse_limit(text) {
        Some(v) => if v < lo {
            lo
        } else if v > hi {
            hi
        } else {
            v
        },
        None => old_limit,
    }
}

/// A second click on the same tab undoes the first, from a closed bar or with that tab
/// open; a click on another tab switches to it.
pub proof fn lemma_tab_click_twice(open: Option<SystemTab>, tab: SystemTab, other: SystemTab)
    ensures
        (open is None || open == Some(tab)) ==> tab_after_click(tab_after_click(open, tab), tab) == open,
        other != tab ==> tab_after_click(Some(other), tab) == Some(tab),
{
}

/// An edited limit is the typed number where it lies in range, the nearest bound where
/// it does not, and the old limit where the text is no number: a successful edit always
/// leaves the limit in range.
pub proof fn lemma_edited_limit_in_range(old_limit: nat, text: Seq<char>, lo: nat, hi: nat)
    requires
        lo <= hi,
    ensures
        parse_decimal_spec(text, usize::MAX as nat) is Some ==> lo <= limit_after_edit(old_limit, text, lo, hi) <= hi,
        parse_decimal_spec(text, usize::MAX as nat) matches Some(v) ==> (lo <= v <= hi ==> limit_after_edit(
            old_limit,
            text,
            lo,
            hi,
        ) == v),
        parse_decimal_spec(text, usize::MAX as nat) is None ==> limit_after_edit(old_limit, text, lo, hi)
            == old_limit,
        parse_decimal_spec(text, usize::MAX as nat) matches Some(v) ==> (v > hi ==> limit_after_edit(
            old_limit,
            text,
            lo,
            hi,
        ) == hi),
        parse_decimal_spec(text, usize::MAX as nat) matches Some(v) ==> (v < lo ==> limit_after_edit(
            old_limit,
            text,
            lo,
            hi,
        ) == lo),
{
}

/// The form asks for multicast discovery (no locators) exactly when the address is blank.
/// For a filled-in address the locators name the endpoint: the chosen transport, a `/`,
/// the address, a `:`, then the port, whatever the transport.
pub proof fn lemma_locators_name_endpoint(transport: Seq<char>, address: Seq<char>, port: Seq<char>)
    requires
        address.len() > 0,
    ensures
        ({
            let l = locators_spec(transport, address, port);
            let a: int = transport.len() as int + 1;
            let b: int = a + address.len() as int;
            &&& l.len() == b + 1 + port.len()
            &&& l.subrange(0, transport.len() as int) == transport
            &&& l[transport.len() as int] == '/'
            &&& l.subrange(a as int, b as int) == address
            &&& l[b as int] == ':'
            &&& l.subrange(b + 1, l.len() as int) == port
        }),
{
    reveal_strlit("/");
    reveal_strlit(":");
    let l = locators_spec(transport, address, port);
    let a: int = transport.len() as int + 1;
    let b: int = a + address.len() as int;
    assert(l.subrange(0, transport.len() as int) =~= transport);
    assert(l.subrange(a as int, b as int) =~= address);
    assert(l.subrange(b + 1, l.len() as int) =~= port);
}

/// A query timeout that is typed as a number is sent as that number of milliseconds,
/// however large; ten seconds applies only where the text is no number.
pub proof fn lemma_typed_timeout_sent_unchanged(text: Seq<char>)
    ensures
        parse_decimal_spec(text, u64::MAX as nat) matches Some(v) ==> timeout_spec(text) == v,
        parse_decimal_spec(text, u64::MAX as nat) is None ==> timeout_spec(text) == 10000,
{
}

pub proof fn lemma_blank_address_means_discovery(transport: Seq<char>, address: Seq<char>, port: Seq<char>)
    ensures
        (locators_spec(transport, address, port).len() == 0) == (address.len() == 0),
{
}

/// The state at launch picks an offered transport and mode.
pub proof fn lemma_launch_form_choices(app: SendItApp)
    requires
        app.is_launch_state(),
    ensures
        app.form_choices_offered(),
{
}

impl SendItApp {
    /// The connection form's transport and mode are among those it offers.
    pub open spec fn form_choices_offered(&self) -> bool {
        is_offered_transport(self.connect_transport@) && is_offered_mode(self.connection_mode@)
    }

    /// A pick in the transport list: the entry at `index` of `transport_options`. The
    /// form's choices stay among those offered.
    pub fn select_transport(&mut self, index: usize)
        requires
            index < 5,
        ensures
            final(self).connect_transport@ == (seq!["tcp"@, "udp"@, "quic"@, "ws"@, "tls"@])[index as int],
            *final(self) == (SendItApp { connect_transport: final(self).connect_transport, ..*old(self) }),
            old(self).form_choices_offered() ==> final(self).form_choices_offered(),
            is_offered_transport(final(self).connect_transport@),
    {
        let options = transport_options();
        self.connect_transport = String::from_str(options[index]);
    }

    /// A pick in the mode list: the value of the entry at `index` of `mode_options`. The
    /// form's choices stay among those offered.
    pub fn select_mode(&mut self, index: usize)
        requires
            index < 2,
        ensures
            final(self).connection_mode@ == (seq!["client"@, "peer"@])[index as int],
            *final(self) == (SendItApp { connection_mode: final(self).connection_mode, ..*old(self) }),
            old(self).form_choices_offered() ==> final(self).form_choices_offered(),
            is_offered_mode(final(self).connection_mode@),
    {
        let options = mode_options();
        self.connection_mode = String::from_str(options[index].0);
    }

    /// A click on a tab of the settings bar.
    pub fn select_system_tab(&mut self, tab: SystemTab)
        ensures
            *final(self) == (SendItApp { system_tab: tab_after_click(old(self).system_tab, tab), ..*old(self) }),
    {
        if self.system_tab == Some(tab) {
            self.system_tab = None;
        } else {
            self.system_tab = Some(tab);
        }
    }

    /// The theme button: switches between dark and light mode.
    pub fn toggle_dark_mode(&mut self)
        ensures
            *final(self) == (SendItApp { dark_mode: !old(self).dark_mode, ..*old(self) }),
    {
        self.dark_mode = !self.dark_mode;
    }

    /// The theme button's caption.
    pub fn theme_label(&self) -> (r: &'static str)
        ensures
            r@ == (if self.dark_mode { "dark"@ } else { "light"@ }),
    {
        if self.dark_mode {
            "dark"
        } else {
            "light"
        }
    }

    /// The dismiss button of the query alert.
    pub fn dismiss_query_alert(&mut self)
        ensures
            *final(self) == (SendItApp { query_alert: None, ..*old(self) }),
    {
        self.query_alert = None;
    }

    /// Whether the form shows the listen port: in peer mode only.
    pub fn shows_listen_port(&self) -> (r: bool)
        ensures
            r == (self.connection_mode@ == "peer"@),
    {
        self.connection_mode == String::from_str("peer")
    }

    /// The connection button's caption: `connect` without a session, else `disconnect`.
    pub fn connection_button_label(&self) -> (r: &'static str)
        ensures
            r@ == (if self.connection_status.spec_is_failed() { "connect"@ } else { "disconnect"@ }),
    {
        if self.connection_status.is_failed() {
            "connect"
        } else {
            "disconnect"
        }
    }

    /// Where the connection form points; see `locators_spec`.
    pub fn connect_locators(&self) -> (r: String)
        ensures
            r@ == locators_spec(self.connect_transport@, self.connect_address@, self.connect_port@),
    {
        if self.connect_address.as_str().is_empty() {
            String::new()
        } else {
            self.connect_transport.clone().concat("/").concat(self.connect_address.as_str()).concat(
                ":",
            ).concat(self.connect_port.as_str())
        }
    }

    /// The connection button. Without a session it connects: where a worker can take
    /// the command, the status becomes `ConnectingPublishing` and the Connect command for
    /// the form is returned. With a session it disconnects: the status becomes
    /// `Disconnected`, the subscriptions are forgotten, and Disconnect is returned for the
    /// worker, if there is one.
    pub fn press_connection_button(&mut self, has_sender: bool) -> (r: Option<ZenohCommand>)
        ensures
            if old(self).connection_status.spec_is_failed() {
                if has_sender {
                    &&& final(self).connection_status is ConnectingPublishing
                    &&& *final(self) == (SendItApp { connection_status: final(self).connection_status, ..*old(self) })
                    &&& r matches Some(ZenohCommand::Connect { locators, listen_port, mode, config_json }) && {
                        &&& locators@ == locators_spec(
                            old(self).connect_transport@,
                            old(self).connect_address@,
                            old(self).connect_port@,
                        )
                        &&& listen_port@ == old(self).listen_port@
                        &&& mode@ == old(self).connection_mode@
                        &&& config_json@ == old(self).config_json@
                    }
                } else {
                    &&& *final(self) == *old(self)
                    &&& r is None
                }
            } else {
                &&& final(self).connection_status is Disconnected
                &&& final(self).subscriptions@.len() == 0
                &&& *final(self) == (SendItApp {
                    connection_status: final(self).connection_status,
                    subscriptions: final(self).subscriptions,
                    ..*old(self)
                })
                &&& if has_sender { r matches Some(ZenohCommand::Disconnect) } else { r is None }
            },
    {
        if self.connection_status.is_failed() {
            if has_sender {
                self.connection_status = ConnectionStatus::ConnectingPublishing;
                let locators = self.connect_locators();
                Some(ZenohCommand::Connect {
                    locators,
                    listen_port: self.listen_port.clone(),
                    mode: self.connection_mode.clone(),
                    config_json: self.config_json.clone(),
                })
            } else {
                None
            }
        } else {
            self.connection_status = ConnectionStatus::Disconnected;
            self.subscriptions.clear();
            if has_sender {
                Some(ZenohCommand::Disconnect)
            } else {
                None
            }
        }
    }

    /// Whether the subscribe button is enabled: with open sessions and a key.
    pub fn can_subscribe(&self) -> (r: bool)
        ensures
            r == (self.connection_status.spec_is_ready() && self.subscribe_key@.len() > 0),
    {
        self.connection_status.is_ready() && !self.subscribe_key.as_str().is_empty()
    }

    /// The subscribe button: the Subscribe command for the form, where the button is
    /// enabled and a worker can take it.
    pub fn press_subscribe(&self, has_sender: bool) -> (r: Option<ZenohCommand>)
        ensures
            if self.connection_status.spec_is_ready() && self.subscribe_key@.len() > 0 && has_sender {
                r matches Some(ZenohCommand::Subscribe { key_expr, reliability, mode }) && {
                    &&& key_expr@ == self.subscribe_key@
                    &&& reliability@ == self.subscribe_reliability@
                    &&& mode@ == self.subscribe_mode@
                }
            } else {
                r is None
            },
    {
        if self.can_subscribe() && has_sender {
            Some(ZenohCommand::Subscribe {
                key_expr: self.subscribe_key.clone(),
                reliability: self.subscribe_reliability.clone(),
                mode: self.subscribe_mode.clone(),
            })
        } else {
            None
        }
    }

    /// The remove button of the active subscription at `index`.
    pub fn press_unsubscribe(&self, index: usize, has_sender: bool) -> (r: Option<ZenohCommand>)
        requires
            index < self.subscriptions@.len(),
        ensures
            if has_sender {
                r matches Some(ZenohCommand::Unsubscribe { subscription_id })
                    && subscription_id == self.subscriptions@[index as int].id
            } else {
                r is None
            },
    {
        if has_sender {
            Some(ZenohCommand::Unsubscribe { subscription_id: self.subscriptions[index].id })
        } else {
            None
        }
    }

    /// Whether the query button is enabled: with open sessions and a selector.
    pub fn can_query(&self) -> (r: bool)
        ensures
            r == (self.connection_status.spec_is_ready() && self.query_selector@.len() > 0),
    {
        self.connection_status.is_ready() && !self.query_selector.as_str().is_empty()
    }

    /// The query button: where it is enabled and a worker can take the command, the
    /// Query command for the form is returned and the alert says the query was sent.
    pub fn press_query(&mut self, has_sender: bool) -> (r: Option<ZenohCommand>)
        ensures
            if old(self).connection_status.spec_is_ready() && old(self).query_selector@.len() > 0 && has_sender {
                &&& r matches Some(ZenohCommand::Query { selector, value, timeout_ms }) && {
                    &&& selector@ == old(self).query_selector@
                    &&& value@ == old(self).query_value@
                    &&& timeout_ms as nat == timeout_spec(old(self).query_timeout@)
                }
                &&& final(self).query_alert matches Some(a) && a@ == query_alert_spec(old(self).query_selector@)
                &&& *final(self) == (SendItApp { query_alert: final(self).query_alert, ..*old(self) })
            } else {
                &&& r is None
                &&& *final(self) == *old(self)
            },
    {
        if self.can_query() && has_sender {
            let timeout_ms = match parse_decimal(self.query_timeout.as_str(), u64::MAX) {
                Some(v) => v,
                None => 10000,
            };
            let alert = String::from_str("Query sent for '").concat(self.query_selector.as_str()).concat(
                "'. Waiting for responses...",
            );
            self.query_alert = Some(alert);
            Some(ZenohCommand::Query {
                selector: self.query_selector.clone(),
                value: self.query_value.clone(),
                timeout_ms,
            })
        } else {
            None
        }
    }

    /// The queryable checkbox, set to `enabled`. Where that changes it and a worker can
    /// take the command, the queryable is enabled on the pattern, or disabled.
    pub fn set_queryable_enabled(&mut self, enabled: bool, has_sender: bool) -> (r: Option<ZenohCommand>)
        ensures
            *final(self) == (SendItApp { queryable_enabled: enabled, ..*old(self) }),
            if enabled != old(self).queryable_enabled && has_sender {
                if enabled {
                    r matches Some(ZenohCommand::EnableQueryable { key_expr })
                        && key_expr@ == old(self).queryable_pattern@
                } else {
                    r matches Some(ZenohCommand::DisableQueryable)
                }
            } else {
                r is None
            },
    {
        let was_enabled = self.queryable_enabled;
        self.queryable_enabled = enabled;
        if was_enabled != enabled && has_sender {
            if enabled {
                Some(ZenohCommand::EnableQueryable { key_expr: self.queryable_pattern.clone() })
            } else {
                Some(ZenohCommand::DisableQueryable)
            }
        } else {
            None
        }
    }

    /// The queryable's status caption.
    pub fn queryable_status_label(&self) -> (r: &'static str)
        ensures
            r@ == (if self.queryable_enabled { "active"@ } else { "inactive"@ }),
    {
        if self.queryable_enabled {
            "active"
        } else {
            "inactive"
        }
    }

    /// The memory limit field, edited to `text`: a number is kept between 10 and 1000 MB.
    pub fn edit_memory_limit(&mut self, text: &str)
        ensures
            final(self).max_memory_mb as nat == limit_after_edit(old(self).max_memory_mb as nat, text@, 10, 1000),
            *final(self) == (SendItApp { max_memory_mb: final(self).max_memory_mb, ..*old(self) }),
    {
        self.max_memory_mb = edited_limit(self.max_memory_mb, text, 10, 1000);
    }

    /// The message limit field, edited to `text`: a number is kept between 100 and 50000.
    pub fn edit_message_limit(&mut self, text: &str)
        ensures
            final(self).max_messages as nat == limit_after_edit(old(self).max_messages as nat, text@, 100, 50000),
            *final(self) == (SendItApp { max_messages: final(self).max_messages, ..*old(self) }),
    {
        self.max_messages = edited_limit(self.max_messages, text, 100, 50000);
    }

    /// The rate field, edited to `text`: a number of messages per second is kept between
    /// 10 and 10000.
    pub fn edit_rate_limit(&mut self, text: &str)
        ensures
            final(self).rate_limit_per_second as nat == limit_after_edit(
                old(self).rate_limit_per_second as nat,
                text@,
                10,
                10000,
            ),
            *final(self) == (SendItApp { rate_limit_per_second: final(self).rate_limit_per_second, ..*old(self) }),
    {
        self.rate_limit_per_second = edited_limit(self.rate_limit_per_second, text, 10, 10000);
    }
}

} // verus!
