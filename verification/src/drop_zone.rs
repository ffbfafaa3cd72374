//! The drop zone: the central panel that takes a dropped file and publishes it.

use vstd::prelude::*;
use vstd::string::*;
use crate::status::ConnectionStatus;

verus! {

/// How long, in nanoseconds, the drop zone shows a success before it is ready again.
pub const SUCCESS_SHOWN_NS: u64 = 3_000_000_000;

/// How long, in nanoseconds, the drop zone shows an error before it is ready again.
pub const ERROR_SHOWN_NS: u64 = 5_000_000_000;

/// State of the drop zone. Times are nanoseconds on the caller's monotonic clock.
#[derive(Debug, Clone, PartialEq)]
pub enum DropZoneState {
    /// Ready to accept files
    Idle,
    /// File is being dragged over the zone
    Hover,
    /// File is being sent (with cancel option)
    Sending { file_name: String, file_size: usize, topic_key: String },
    /// File sent successfully
    Success { file_name: String, completed_at: u64 },
    /// Send failed
    Error { message: String, occurred_at: u64 },
}

/// The drop zone's state with its texts taken as character sequences.
pub enum DropZoneModel {
    Idle,
    Hover,
    Sending { file_name: Seq<char>, file_size: nat, topic_key: Seq<char> },
    Success { file_name: Seq<char>, completed_at: nat },
    Error { message: Seq<char>, occurred_at: nat },
}

impl View for DropZoneState {
    type V = DropZoneModel;

    open spec fn view(&self) -> DropZoneModel {
        match self {
            DropZoneState::Idle => DropZoneModel::Idle,
            DropZoneState::Hover => DropZoneModel::Hover,
            DropZoneState::Sending { file_name, file_size, topic_key } => DropZoneModel::Sending {
                file_name: file_name@,
                file_size: *file_size as nat,
                topic_key: topic_key@,
            },
            DropZoneState::Success { file_name, completed_at } => DropZoneModel::Success {
                file_name: file_name@,
                completed_at: *completed_at as nat,
            },
            DropZoneState::Error { message, occurred_at } => DropZoneModel::Error {
                message: message@,
                occurred_at: *occurred_at as nat,
            },
        }
    }
}

/// What the interface does with the drop zone in a frame.
#[derive(Debug, Clone, Copy, PartialEq, Eq, Structural)]
pub enum FrameAction {
    /// The connection failed or is closed: show the overlay that says so.
    ShowConnectionOverlay,
    /// A session is being opened: show a spinner.
    ShowConnecting,
    /// Exactly one file was dropped: handle it, then draw the zone.
    HandleDroppedFile,
    /// Draw the zone for its state.
    Render,
}

/// The message shown when more than one file is dropped at once.
pub open spec fn one_file_message() -> Seq<char> {
    "Only one file at a time. Please drop a single file."@
}

/// Time gone by from `since` to `now`, zero where `now` comes first.
pub open spec fn elapsed(now: nat, since: nat) -> nat {
    if now >= since {
        (now - since) as nat
    } else {
        0
    }
}

/// A success older than its display time, or an error older than its own, gives way to `Idle`.
pub open spec fn expire(s: DropZoneModel, now: nat) -> DropZoneModel {
    match s {
        DropZoneModel::Success { completed_at, .. } => if elapsed(now, completed_at) > SUCCESS_SHOWN_NS {
            DropZoneModel::Idle
        } else {
            s
        },
        DropZoneModel::Error { occurred_at, .. } => if elapsed(now, occurred_at) > ERROR_SHOWN_NS {
            DropZoneModel::Idle
        } else {
            s
        },
        _ => s,
    }
}

/// A drag over a ready zone highlights it; the highlight goes when the drag leaves.
pub open spec fn track_hover(s: DropZoneModel, hovering: bool) -> DropZoneModel {
    if hovering && (s is Idle || s is Hover) {
        DropZoneModel::Hover
    } else if !hovering && s is Hover {
        DropZoneModel::Idle
    } else {
        s
    }
}

/// The drop zone's next state and action in a frame, from its state, the connection,
/// whether a file is dragged over the window, how many files were dropped, and the time.
pub open spec fn frame_step(
    s: DropZoneModel,
    status: ConnectionStatus,
    hovering: bool,
    dropped: nat,
    now: nat,
) -> (DropZoneModel, FrameAction) {
    if status.spec_is_failed() {
        (s, FrameAction::ShowConnectionOverlay)
    } else if status.spec_is_connecting() {
        (s, FrameAction::ShowConnecting)
    } else {
        let t = track_hover(expire(s, now), hovering);
        if dropped > 0 && !(t is Sending) {
            if dropped > 1 {
                (DropZoneModel::Error { message: one_file_message(), occurred_at: now }, FrameAction::Render)
            } else {
                (t, FrameAction::HandleDroppedFile)
            }
        } else {
            (t, FrameAction::Render)
        }
    }
}

/// Time gone by from `since` to `now`, zero where `now` comes first.
pub fn elapsed_ns(now: u64, since: u64) -> (r: u64)
    ensures
        r as nat == elapsed(now as nat, since as nat),
{
    if now >= since {
        now - since
    } else {
        0
    }
}

/// While the connection is closed, failed or being opened, a frame leaves the drop zone
/// as it is, whatever is dragged or dropped.
pub proof fn lemma_frame_waits_for_connection(
    s: DropZoneModel,
    status: ConnectionStatus,
    hovering: bool,
    dropped: nat,
    now: nat,
)
    requires
        status.spec_is_failed() || status.spec_is_connecting(),
    ensures
        frame_step(s, status, hovering, dropped, now).0 == s,
        frame_step(s, status, hovering, dropped, now).1 != FrameAction::HandleDroppedFile,
{
}

/// A file being sent stays in the zone through any frame: drags and drops are ignored
/// until the transfer is cancelled or completed.
pub proof fn lemma_sending_not_interrupted(
    s: DropZoneModel,
    status: ConnectionStatus,
    hovering: bool,
    dropped: nat,
    now: nat,
)
    requires
        s is Sending,
    ensures
        frame_step(s, status, hovering, dropped, now).0 == s,
        frame_step(s, status, hovering, dropped, now).1 != FrameAction::HandleDroppedFile,
{
}

/// With a usable connection and nothing dragged or dropped, a success is shown for three
/// seconds and an error for five; after that the zone is idle again.
pub proof fn lemma_outcome_shown_then_idle(s: DropZoneModel, status: ConnectionStatus, now: nat)
    requires
        !status.spec_is_failed(),
        !status.spec_is_connecting(),
        s is Success || s is Error,
    ensures
        frame_step(s, status, false, 0, now).1 == FrameAction::Render,
        frame_step(s, status, false, 0, now).0 == expire(s, now),
        expire(s, now) is Idle || expire(s, now) == s,
{
}

/// With a usable connection and no transfer under way, a drop of several files is
/// refused with an error that asks for one file, and a drop of one file is handled.
pub proof fn lemma_one_file_at_a_time(
    s: DropZoneModel,
    status: ConnectionStatus,
    hovering: bool,
    dropped: nat,
    now: nat,
)
    requires
        !status.spec_is_failed(),
        !status.spec_is_connecting(),
        !(s is Sending),
        dropped > 0,
    ensures
        dropped > 1 ==> frame_step(s, status, hovering, dropped, now) == (
            DropZoneModel::Error { message: one_file_message(), occurred_at: now },
            FrameAction::Render,
        ),
        dropped == 1 ==> frame_step(s, status, hovering, dropped, now).1 == FrameAction::HandleDroppedFile,
{
}

/// A drag over a ready zone highlights it, and the zone is ready again once the drag
/// leaves without a drop.
pub proof fn lemma_hover_round_trip(status: ConnectionStatus, t1: nat, t2: nat)
    requires
        !status.spec_is_failed(),
        !status.spec_is_connecting(),
    ensures
        frame_step(DropZoneModel::Idle, status, true, 0, t1) == (DropZoneModel::Hover, FrameAction::Render),
        frame_step(DropZoneModel::Hover, status, false, 0, t2) == (DropZoneModel::Idle, FrameAction::Render),
        frame_step(DropZoneModel::Idle, status, false, 0, t2) == (DropZoneModel::Idle, FrameAction::Render),
{
}

impl Default for DropZoneState {
    fn default() -> (r: Self)
        ensures
            r@ == DropZoneModel::Idle,
    {
        DropZoneState::Idle
    }
}

impl DropZoneState {
    /// Whether a file is being sent.
    pub fn is_sending(&self) -> (r: bool)
        ensures
            r == (self@ is Sending),
    {
        match self {
            DropZoneState::Sending { .. } => true,
            _ => false,
        }
    }

    /// Moves the drop zone through one frame: expires an old success or error, follows a
    /// drag over the window, and takes a drop unless a file is being sent. Several files
    /// at once are refused with an error; a single one is left for the caller to handle.
    pub fn on_frame(&mut self, status: &ConnectionStatus, hovering: bool, dropped_files: usize, now: u64) -> (r: FrameAction)
        ensures
            (final(self)@, r) == frame_step(old(self)@, *status, hovering, dropped_files as nat, now as nat),
    {
        if status.is_failed() {
            return FrameAction::ShowConnectionOverlay;
        }
        if status.is_connecting() {
            return FrameAction::ShowConnecting;
        }
        let expired = match self {
            DropZoneState::Success { completed_at, .. } => elapsed_ns(now, *completed_at) > SUCCESS_SHOWN_NS,
            DropZoneState::Error { occurred_at, .. } => elapsed_ns(now, *occurred_at) > ERROR_SHOWN_NS,
            _ => false,
        };
        if expired {
            *self = DropZoneState::Idle;
        }
        let ready = match self {
            DropZoneState::Idle => true,
            DropZoneState::Hover => true,
            _ => false,
        };
        let hovered = match self {
            DropZoneState::Hover => true,
            _ => false,
        };
        if hovering && ready {
            *self = DropZoneState::Hover;
        } else if !hovering && hovered {
            *self = DropZoneState::Idle;
        }
        if dropped_files > 0 && !self.is_sending() {
            if dropped_files > 1 {
                *self = DropZoneState::Error {
                    message: String::from_str("Only one file at a time. Please drop a single file."),
                    occurred_at: now,
                };
                FrameAction::Render
            } else {
                FrameAction::HandleDroppedFile
            }
        } else {
            FrameAction::Render
        }
    }
}

} // verus!
