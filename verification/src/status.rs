//! The state of the connection to the network, as the interface reads it.

use vstd::prelude::*;
use vstd::string::*;
use crate::topic::opt_view;

verus! {

/// Where the connection to the network stands.
#[derive(Debug, Clone)]
pub enum ConnectionStatus {
    /// No session is open.
    Disconnected,
    /// The publishing session is being opened.
    ConnectingPublishing,
    /// The monitoring session is being opened.
    ConnectingMonitor,
    /// Both sessions are open and no peer has been seen yet.
    WaitingForPeers,
    /// Both sessions are open and peers are known.
    Connected,
    /// Opening a session failed, for the reason given.
    Error(String),
}

/// Subscriptions and queries are possible exactly while both sessions are open
/// (`Connected` or `WaitingForPeers`): never without a session, and never while one is
/// being opened.
pub proof fn lemma_ready_exactly_when_open(status: ConnectionStatus)
    ensures
        status.spec_is_ready() <==> (status is Connected || status is WaitingForPeers),
        status.spec_is_failed() ==> !status.spec_is_ready(),
        status.spec_is_connecting() ==> !status.spec_is_ready(),
        status.spec_is_failed() <==> (status is Disconnected || status is Error),
        status.spec_is_connecting() <==> (status is ConnectingPublishing || status is ConnectingMonitor),
{
}

impl ConnectionStatus {
    /// No session: the drop zone shows the connection overlay.
    pub open spec fn spec_is_failed(&self) -> bool {
        self is Disconnected || self is Error
    }

    /// A session is being opened: the drop zone shows a spinner.
    pub open spec fn spec_is_connecting(&self) -> bool {
        self is ConnectingPublishing || self is ConnectingMonitor
    }

    /// Sessions are open: subscriptions and queries can be made.
    pub open spec fn spec_is_ready(&self) -> bool {
        self is Connected || self is WaitingForPeers
    }

    /// The detail line of the connection overlay.
    pub open spec fn overlay_detail_spec(&self) -> Seq<char> {
        match self {
            ConnectionStatus::Error(err) => err@,
            ConnectionStatus::Disconnected => "Not connected"@,
            _ => Seq::empty(),
        }
    }

    /// The line the settings bar shows for a failed connection.
    pub open spec fn settings_error_spec(&self) -> Option<Seq<char>> {
        match self {
            ConnectionStatus::Error(err) => Some("connection error: "@ + err@),
            _ => None,
        }
    }

    /// Whether there is no session (disconnected, or a failed attempt).
    pub fn is_failed(&self) -> (r: bool)
        ensures
            r == self.spec_is_failed(),
    {
        match self {
            ConnectionStatus::Disconnected => true,
            ConnectionStatus::Error(_) => true,
            _ => false,
        }
    }

    /// Whether a session is being opened.
    pub fn is_connecting(&self) -> (r: bool)
        ensures
            r == self.spec_is_connecting(),
    {
        match self {
            ConnectionStatus::ConnectingPublishing => true,
            ConnectionStatus::ConnectingMonitor => true,
            _ => false,
        }
    }

    /// Whether the sessions are open.
    pub fn is_ready(&self) -> (r: bool)
        ensures
            r == self.spec_is_ready(),
    {
        match self {
            ConnectionStatus::Connected => true,
            ConnectionStatus::WaitingForPeers => true,
            _ => false,
        }
    }

    /// The detail line under "Connection Failed": the error, `Not connected`, or nothing.
    pub fn overlay_detail(&self) -> (r: String)
        ensures
            r@ == self.overlay_detail_spec(),
    {
        match self {
            ConnectionStatus::Error(err) => err.clone(),
            ConnectionStatus::Disconnected => String::from_str("Not connected"),
            _ => String::new(),
        }
    }

    /// The error line of the settings bar, for a failed connection only.
    pub fn settings_error(&self) -> (r: Option<String>)
        ensures
            opt_view(r) == self.settings_error_spec(),
    {
        match self {
            ConnectionStatus::Error(err) => Some(String::from_str("connection error: ").concat(err.as_str())),
            _ => None,
        }
    }
}

} // verus!
