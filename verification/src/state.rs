//! The application's interface state, its defaults, the toolbar, and the handling of a
//! dropped file.

use vstd::prelude::*;
use vstd::string::*;
use crate::command::{Subscription, ZenohCommand};
use crate::drop_zone::{DropZoneModel, DropZoneState, FrameAction, frame_step};
use crate::settings::SystemTab;
use crate::status::ConnectionStatus;
use crate::topic::{derive_topic_key, dropped_file_name, dropped_name_spec, topic_key_of};

verus! {

/// Main application state: what the interface shows and edits, as plain values.
pub struct SendItApp {
    pub connection_status: ConnectionStatus,
    pub discovered_peers: usize,
    pub discovered_routers: usize,
    pub selected_topic: Option<String>,
    pub connect_transport: String,
    pub connect_address: String,
    pub connect_port: String,
    pub listen_port: String,
    pub connection_mode: String,
    pub config_json: String,
    pub subscribe_key: String,
    pub subscribe_reliability: String,
    pub subscribe_mode: String,
    pub publish_key: String,
    pub publish_payload: String,
    pub publish_payload_bytes: Option<Vec<u8>>,
    pub publish_payload_filename: Option<String>,
    pub publish_payload_expanded: bool,
    pub import_memory_bytes: usize,
    pub publish_encoding: String,
    pub query_selector: String,
    pub query_value: String,
    pub query_timeout: String,
    pub subscriptions: Vec<Subscription>,
    pub tree_filter: String,
    pub dark_mode: bool,
    pub max_messages: usize,
    pub max_memory_mb: usize,
    pub current_memory_bytes: usize,
    pub message_filter: String,
    pub auto_scroll: bool,
    pub query_alert: Option<String>,
    pub messages_dropped: usize,
    /// The rate limiter's budget of messages per second.
    pub rate_limit_per_second: usize,
    pub rate_limit_drops: usize,
    pub memory_warning_shown: bool,
    pub worker_healthy: bool,
    /// How long a message hash is remembered for deduplication, in seconds.
    pub dedup_ttl_secs: u64,
    pub dedup_enabled: bool,
    pub messages_deduped: usize,
    pub queryable_enabled: bool,
    pub queryable_pattern: String,
    pub settings_open: bool,
    pub drop_zone_state: DropZoneState,
    pub show_tree: bool,
    pub tree_auto_opened: bool,
    pub system_tab: Option<SystemTab>,
}

/// A named color of the application's palette.
#[derive(Debug, Clone, Copy, PartialEq, Eq, Structural)]
pub enum PaletteColor {
    Background,
    DarkBackground,
    CardBackground,
    DarkCardBackground,
    TextPrimary,
    DarkTextPrimary,
    TextSecondary,
    DarkTextSecondary,
    TextTertiary,
    DarkTextTertiary,
    Success,
    DarkSuccess,
}

/// What a dropped file is published as: the name shown for it and its topic key.
#[derive(Debug, Clone)]
pub struct DropPlan {
    pub file_name: String,
    pub topic_key: String,
}

/// The palette color for a theme: the dark variant in dark mode, the light one otherwise.
pub open spec fn themed(dark_mode: bool, dark: PaletteColor, light: PaletteColor) -> PaletteColor {
    if dark_mode {
        dark
    } else {
        light
    }
}

/// The drop zone's state after the dropped file was read (or not), and whether a worker
/// can take the publish command.
pub open spec fn state_after_read(
    file_name: Seq<char>,
    topic_key: Seq<char>,
    read: Result<nat, Seq<char>>,
    has_sender: bool,
    now: nat,
) -> DropZoneModel {
    match read {
        Err(e) => DropZoneModel::Error { message: "Failed to read file: "@ + e, occurred_at: now },
        Ok(size) => if has_sender {
            DropZoneModel::Sending { file_name, file_size: size, topic_key }
        } else {
            DropZoneModel::Error { message: "No connection to worker thread"@, occurred_at: now }
        },
    }
}

/// The drop zone's state once the worker was handed the publish command, or refused it.
pub open spec fn state_after_queue(file_name: Seq<char>, queued: Result<(), Seq<char>>, now: nat) -> DropZoneModel {
    match queued {
        Ok(_) => DropZoneModel::Success { file_name, completed_at: now },
        Err(e) => DropZoneModel::Error { message: "Failed to queue file for sending: "@ + e, occurred_at: now },
    }
}

/// The outcome of reading a file, by its size or the error's text.
pub open spec fn read_outcome(read: Result<Vec<u8>, String>) -> Result<nat, Seq<char>> {
    match read {
        Ok(bytes) => Ok(bytes.len() as nat),
        Err(e) => Err(e@),
    }
}

/// The outcome of handing a command to the worker, by the error's text.
pub open spec fn queue_outcome(queued: Result<(), String>) -> Result<(), Seq<char>> {
    match queued {
        Ok(_) => Ok(()),
        Err(e) => Err(e@),
    }
}

/// The command that publishes a dropped file's bytes under its topic key.
pub open spec fn is_publish_of(c: ZenohCommand, file_name: Seq<char>, topic_key: Seq<char>, payload: Seq<u8>) -> bool {
    match c {
        ZenohCommand::Publish { key, payload: p, encoding, from_import, filename } => {
            &&& key@ == topic_key
            &&& p@ == payload
            &&& encoding@ == "application/octet-stream"@
            &&& from_import
            &&& filename matches Some(n) && n@ == file_name
        },
        _ => false,
    }
}

/// A publish command for a dropped file carries the whole file, byte for byte, under
/// the file's topic key and name, as an octet stream taken from an import.
pub proof fn lemma_publish_carries_whole_file(
    c: ZenohCommand,
    file_name: Seq<char>,
    topic_key: Seq<char>,
    payload: Seq<u8>,
)
    requires
        is_publish_of(c, file_name, topic_key, payload),
    ensures
        c matches ZenohCommand::Publish { key, payload: p, encoding, from_import, filename } && {
            &&& p@.len() == payload.len()
            &&& forall|i: int| 0 <= i < payload.len() ==> p@[i] == payload[i]
            &&& key@ == topic_key
            &&& encoding@ == "application/octet-stream"@
            &&& from_import
            &&& filename matches Some(n) && n@ == file_name
        },
{
}

/// A dropped file that is read, and whose publish command the worker takes, is shown
/// as sending under its name and size, then as sent under the same name; without a
/// worker, sending never starts.
pub proof fn lemma_drop_pipeline(
    file_name: Seq<char>,
    topic_key: Seq<char>,
    size: nat,
    has_sender: bool,
    t1: nat,
    t2: nat,
)
    ensures
        has_sender ==> state_after_read(file_name, topic_key, Ok(size), has_sender, t1) == (DropZoneModel::Sending {
            file_name,
            file_size: size,
            topic_key,
        }),
        !has_sender ==> state_after_read(file_name, topic_key, Ok(size), has_sender, t1) is Error,
        state_after_queue(file_name, Ok(()), t2) == (DropZoneModel::Success { file_name, completed_at: t2 }),
{
}

impl Default for SendItApp {
    fn default() -> (r: Self)
        ensures
            r.is_launch_state(),
    {
        Self::new()
    }
}

impl SendItApp {
    /// The state at launch: connecting in peer mode on port 7447, dark theme, an idle
    /// drop zone, and the default limits.
    pub open spec fn is_launch_state(&self) -> bool {
        &&& self.connection_status is ConnectingPublishing
        &&& self.discovered_peers == 0
        &&& self.discovered_routers == 0
        &&& self.selected_topic is None
        &&& self.connect_transport@ == "tcp"@
        &&& self.connect_address@.len() == 0
        &&& self.connect_port@ == "7447"@
        &&& self.listen_port@ == "7447"@
        &&& self.connection_mode@ == "peer"@
        &&& self.config_json@ == "{}"@
        &&& self.subscribe_key@ == "demo/**"@
        &&& self.subscribe_reliability@ == "reliable"@
        &&& self.subscribe_mode@ == "push"@
        &&& self.publish_key@ == "demo/test"@
        &&& self.publish_payload@ == "Hello Zenoh!"@
        &&& self.publish_payload_bytes is None
        &&& self.publish_payload_filename is None
        &&& !self.publish_payload_expanded
        &&& self.import_memory_bytes == 0
        &&& self.publish_encoding@ == "text/plain"@
        &&& self.query_selector@ == "demo/**"@
        &&& self.query_value@.len() == 0
        &&& self.query_timeout@ == "10000"@
        &&& self.subscriptions@.len() == 0
        &&& self.tree_filter@.len() == 0
        &&& self.dark_mode
        &&& self.max_messages == 1000000
        &&& self.max_memory_mb == 100
        &&& self.current_memory_bytes == 0
        &&& self.message_filter@.len() == 0
        &&& self.auto_scroll
        &&& self.query_alert is None
        &&& self.messages_dropped == 0
        &&& self.rate_limit_per_second == 1000
        &&& self.rate_limit_drops == 0
        &&& !self.memory_warning_shown
        &&& self.worker_healthy
        &&& self.dedup_ttl_secs == 60
        &&& self.dedup_enabled
        &&& self.messages_deduped == 0
        &&& !self.queryable_enabled
        &&& self.queryable_pattern@ == "**"@
        &&& !self.settings_open
        &&& self.drop_zone_state@ == DropZoneModel::Idle
        &&& !self.show_tree
        &&& !self.tree_auto_opened
        &&& self.system_tab is None
    }

    /// The state at launch; see `is_launch_state`.
    pub fn new() -> (r: Self)
        ensures
            r.is_launch_state(),
    {
        SendItApp {
            connection_status: ConnectionStatus::ConnectingPublishing,
            discovered_peers: 0,
            discovered_routers: 0,
            selected_topic: None,
            connect_transport: String::from_str("tcp"),
            connect_address: String::new(),
            connect_port: String::from_str("7447"),
            listen_port: String::from_str("7447"),
            connection_mode: String::from_str("peer"),
            config_json: String::from_str("{}"),
            subscribe_key: String::from_str("demo/**"),
            subscribe_reliability: String::from_str("reliable"),
            subscribe_mode: String::from_str("push"),
            publish_key: String::from_str("demo/test"),
            publish_payload: String::from_str("Hello Zenoh!"),
            publish_payload_bytes: None,
            publish_payload_filename: None,
            publish_payload_expanded: false,
            import_memory_bytes: 0,
            publish_encoding: String::from_str("text/plain"),
            query_selector: String::from_str("demo/**"),
            query_value: String::new(),
            query_timeout: String::from_str("10000"),
            subscriptions: Vec::new(),
            tree_filter: String::new(),
            dark_mode: true,
            max_messages: 1000000,
            max_memory_mb: 100,
            current_memory_bytes: 0,
            message_filter: String::new(),
            auto_scroll: true,
            query_alert: None,
            messages_dropped: 0,
            rate_limit_per_second: 1000,
            rate_limit_drops: 0,
            memory_warning_shown: false,
            worker_healthy: true,
            dedup_ttl_secs: 60,
            dedup_enabled: true,
            messages_deduped: 0,
            queryable_enabled: false,
            queryable_pattern: String::from_str("**"),
            settings_open: false,
            drop_zone_state: DropZoneState::Idle,
            show_tree: false,
            tree_auto_opened: false,
            system_tab: None,
        }
    }

    /// The command sent at launch: connect in peer mode, listening on port 7447, with
    /// multicast discovery (no locators) and an empty configuration.
    pub fn auto_connect_command() -> (r: ZenohCommand)
        ensures
            r matches ZenohCommand::Connect { locators, listen_port, mode, config_json } && {
                &&& locators@.len() == 0
                &&& listen_port@ == "7447"@
                &&& mode@ == "peer"@
                &&& config_json@ == "{}"@
            },
    {
        ZenohCommand::Connect {
            locators: String::new(),
            listen_port: String::from_str("7447"),
            mode: String::from_str("peer"),
            config_json: String::from_str("{}"),
        }
    }

    /// The window background.
    pub fn background_color(&self) -> (r: PaletteColor)
        ensures
            r == themed(self.dark_mode, PaletteColor::DarkBackground, PaletteColor::Background),
    {
        if self.dark_mode {
            PaletteColor::DarkBackground
        } else {
            PaletteColor::Background
        }
    }

    /// The background of cards and panels.
    pub fn card_background_color(&self) -> (r: PaletteColor)
        ensures
            r == themed(self.dark_mode, PaletteColor::DarkCardBackground, PaletteColor::CardBackground),
    {
        if self.dark_mode {
            PaletteColor::DarkCardBackground
        } else {
            PaletteColor::CardBackground
        }
    }

    /// The main text color.
    pub fn text_color(&self) -> (r: PaletteColor)
        ensures
            r == themed(self.dark_mode, PaletteColor::DarkTextPrimary, PaletteColor::TextPrimary),
    {
        if self.dark_mode {
            PaletteColor::DarkTextPrimary
        } else {
            PaletteColor::TextPrimary
        }
    }

    /// The color of secondary text.
    pub fn text_secondary_color(&self) -> (r: PaletteColor)
        ensures
            r == themed(self.dark_mode, PaletteColor::DarkTextSecondary, PaletteColor::TextSecondary),
    {
        if self.dark_mode {
            PaletteColor::DarkTextSecondary
        } else {
            PaletteColor::TextSecondary
        }
    }

    /// The color of tertiary text, such as hints.
    pub fn text_tertiary_color(&self) -> (r: PaletteColor)
        ensures
            r == themed(self.dark_mode, PaletteColor::DarkTextTertiary, PaletteColor::TextTertiary),
    {
        if self.dark_mode {
            PaletteColor::DarkTextTertiary
        } else {
            PaletteColor::TextTertiary
        }
    }

    /// The color of a success: the "Sent!" heading and an active queryable.
    pub fn success_color(&self) -> (r: PaletteColor)
        ensures
            r == themed(self.dark_mode, PaletteColor::DarkSuccess, PaletteColor::Success),
    {
        if self.dark_mode {
            PaletteColor::DarkSuccess
        } else {
            PaletteColor::Success
        }
    }

    /// The `files` button: shows or hides the topic tree.
    pub fn toggle_tree(&mut self)
        ensures
            *final(self) == (SendItApp { show_tree: !old(self).show_tree, ..*old(self) }),
    {
        self.show_tree = !self.show_tree;
    }

    /// The `settings` button: opens or closes the settings bar; closing it also closes
    /// the open tab.
    pub fn toggle_settings(&mut self)
        ensures
            *final(self) == (SendItApp {
                settings_open: !old(self).settings_open,
                system_tab: if old(self).settings_open { None } else { old(self).system_tab },
                ..*old(self)
            }),
    {
        self.settings_open = !self.settings_open;
        if !self.settings_open {
            self.system_tab = None;
        }
    }

    /// The close button of the topic detail panel.
    pub fn close_topic_details(&mut self)
        ensures
            *final(self) == (SendItApp { selected_topic: None, ..*old(self) }),
    {
        self.selected_topic = None;
    }

    /// The number of known peers and routers, shown in the toolbar when not zero.
    pub fn total_peers(&self) -> (r: usize)
        requires
            self.discovered_peers + self.discovered_routers <= usize::MAX,
        ensures
            r == self.discovered_peers + self.discovered_routers,
    {
        self.discovered_peers + self.discovered_routers
    }

    /// The peer count the toolbar shows: the number of peers and routers, where there is
    /// at least one.
    pub fn shown_peer_count(&self) -> (r: Option<usize>)
        requires
            self.discovered_peers + self.discovered_routers <= usize::MAX,
        ensures
            match r {
                Some(n) => n == self.discovered_peers + self.discovered_routers && n > 0,
                None => self.discovered_peers + self.discovered_routers == 0,
            },
    {
        let total = self.total_peers();
        if total > 0 {
            Some(total)
        } else {
            None
        }
    }

    /// Whether the toolbar shows a spinner beside the connection status.
    pub fn shows_connecting_spinner(&self) -> (r: bool)
        ensures
            r == self.connection_status.spec_is_connecting(),
    {
        self.connection_status.is_connecting()
    }

    /// One frame of the drop zone under the current connection; see `frame_step`.
    pub fn drop_zone_frame(&mut self, hovering: bool, dropped_files: usize, now: u64) -> (r: FrameAction)
        ensures
            (final(self).drop_zone_state@, r) == frame_step(
                old(self).drop_zone_state@,
                old(self).connection_status,
                hovering,
                dropped_files as nat,
                now as nat,
            ),
            *final(self) == (SendItApp { drop_zone_state: final(self).drop_zone_state, ..*old(self) }),
    {
        self.drop_zone_state.on_frame(&self.connection_status, hovering, dropped_files, now)
    }

    /// The Cancel button shown while a file is being sent: the zone is ready again.
    pub fn cancel_send(&mut self)
        ensures
            final(self).drop_zone_state@ == DropZoneModel::Idle,
            *final(self) == (SendItApp { drop_zone_state: final(self).drop_zone_state, ..*old(self) }),
    {
        self.drop_zone_state = DropZoneState::Idle;
    }

    /// First step of handling a dropped file: without a path the drop fails; with one,
    /// the file's name and topic key are worked out, and the state is left as it was.
    pub fn plan_file_drop(&mut self, path: Option<&str>, now: u64) -> (r: Option<DropPlan>)
        ensures
            match path {
                None => {
                    &&& r is None
                    &&& final(self).drop_zone_state@ == (DropZoneModel::Error {
                        message: "Could not determine file path"@,
                        occurred_at: now as nat,
                    })
                    &&& *final(self) == (SendItApp { drop_zone_state: final(self).drop_zone_state, ..*old(self) })
                },
                Some(p) => {
                    &&& r matches Some(plan) && plan.file_name@ == dropped_name_spec(p@)
                        && plan.topic_key@ == topic_key_of(p@)
                    &&& *final(self) == *old(self)
                },
            },
    {
        match path {
            None => {
                self.drop_zone_state = DropZoneState::Error {
                    message: String::from_str("Could not determine file path"),
                    occurred_at: now,
                };
                None
            },
            Some(p) => {
                let file_name = dropped_file_name(p);
                let topic_key = derive_topic_key(p);
                Some(DropPlan { file_name, topic_key })
            },
        }
    }

    /// Second step: the file was read, or reading it failed. A read file is being sent,
    /// and the command that publishes it is returned, if there is a worker to take it.
    pub fn on_file_read(&mut self, plan: DropPlan, read: Result<Vec<u8>, String>, has_sender: bool, now: u64) -> (r: Option<ZenohCommand>)
        ensures
            final(self).drop_zone_state@ == state_after_read(
                plan.file_name@,
                plan.topic_key@,
                read_outcome(read),
                has_sender,
                now as nat,
            ),
            *final(self) == (SendItApp { drop_zone_state: final(self).drop_zone_state, ..*old(self) }),
            match read {
                Ok(bytes) if has_sender => r matches Some(c) && is_publish_of(c, plan.file_name@, plan.topic_key@, bytes@),
                _ => r is None,
            },
            match read {
                Ok(bytes) if has_sender => r matches Some(ZenohCommand::Publish { key, payload, .. }) && {
                    &&& payload@ == bytes@
                    &&& key@ == plan.topic_key@
                    &&& final(self).drop_zone_state@ == (DropZoneModel::Sending {
                        file_name: plan.file_name@,
                        file_size: payload@.len(),
                        topic_key: plan.topic_key@,
                    })
                },
                _ => true,
            },
    {
        match read {
            Err(e) => {
                self.drop_zone_state = DropZoneState::Error {
                    message: String::from_str("Failed to read file: ").concat(e.as_str()),
                    occurred_at: now,
                };
                None
            },
            Ok(bytes) => {
                if has_sender {
                    self.drop_zone_state = DropZoneState::Sending {
                        file_name: plan.file_name.clone(),
                        file_size: bytes.len(),
                        topic_key: plan.topic_key.clone(),
                    };
                    Some(ZenohCommand::Publish {
                        key: plan.topic_key,
                        payload: bytes,
                        encoding: String::from_str("application/octet-stream"),
                        from_import: true,
                        filename: Some(plan.file_name),
                    })
                } else {
                    self.drop_zone_state = DropZoneState::Error {
                        message: String::from_str("No connection to worker thread"),
                        occurred_at: now,
                    };
                    None
                }
            },
        }
    }

    /// Last step: the worker took the publish command, or refused it. On success the
    /// topic tree opens and the zone shows the file as sent.
    pub fn on_publish_queued(&mut self, file_name: String, queued: Result<(), String>, now: u64)
        ensures
            final(self).drop_zone_state@ == state_after_queue(file_name@, queue_outcome(queued), now as nat),
            final(self).show_tree == (queued is Ok || old(self).show_tree),
            *final(self) == (SendItApp {
                drop_zone_state: final(self).drop_zone_state,
                show_tree: final(self).show_tree,
                ..*old(self)
            }),
    {
        match queued {
            Ok(_) => {
                self.show_tree = true;
                self.drop_zone_state = DropZoneState::Success { file_name, completed_at: now };
            },
            Err(e) => {
                self.drop_zone_state = DropZoneState::Error {
                    message: String::from_str("Failed to queue file for sending: ").concat(e.as_str()),
                    occurred_at: now,
                };
            },
        }
    }
}

} // verus!
