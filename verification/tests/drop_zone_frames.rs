use send_it::drop_zone::{elapsed_ns, DropZoneState, FrameAction, ERROR_SHOWN_NS, SUCCESS_SHOWN_NS};
use send_it::status::ConnectionStatus;

fn success(at: u64) -> DropZoneState {
    DropZoneState::Success { file_name: "a.txt".to_string(), completed_at: at }
}

fn error(at: u64) -> DropZoneState {
    DropZoneState::Error { message: "boom".to_string(), occurred_at: at }
}

fn sending() -> DropZoneState {
    DropZoneState::Sending { file_name: "a.txt".to_string(), file_size: 3, topic_key: "tmp/a.txt".to_string() }
}

#[test]
fn failed_connection_shows_overlay_and_keeps_state() {
    for status in [ConnectionStatus::Disconnected, ConnectionStatus::Error("refused".to_string())] {
        let mut s = DropZoneState::Idle;
        assert_eq!(s.on_frame(&status, true, 1, 10), FrameAction::ShowConnectionOverlay);
        assert_eq!(s, DropZoneState::Idle);
    }
}

#[test]
fn connecting_shows_spinner_and_keeps_state() {
    for status in [ConnectionStatus::ConnectingPublishing, ConnectionStatus::ConnectingMonitor] {
        let mut s = success(0);
        assert_eq!(s.on_frame(&status, false, 3, 100 * SUCCESS_SHOWN_NS), FrameAction::ShowConnecting);
        assert_eq!(s, success(0));
    }
}

#[test]
fn success_is_shown_three_seconds() {
    let mut s = success(1_000);
    assert_eq!(s.on_frame(&ConnectionStatus::Connected, false, 0, 1_000 + SUCCESS_SHOWN_NS), FrameAction::Render);
    assert_eq!(s, success(1_000));
    assert_eq!(s.on_frame(&ConnectionStatus::Connected, false, 0, 1_001 + SUCCESS_SHOWN_NS), FrameAction::Render);
    assert_eq!(s, DropZoneState::Idle);
    assert_eq!(SUCCESS_SHOWN_NS, 3_000_000_000);
}

#[test]
fn error_is_shown_five_seconds() {
    let mut s = error(0);
    s.on_frame(&ConnectionStatus::WaitingForPeers, false, 0, 4_000_000_000);
    assert_eq!(s, error(0));
    s.on_frame(&ConnectionStatus::WaitingForPeers, false, 0, ERROR_SHOWN_NS + 1);
    assert_eq!(s, DropZoneState::Idle);
}

#[test]
fn clock_going_back_counts_as_no_time() {
    assert_eq!(elapsed_ns(5, 10), 0);
    assert_eq!(elapsed_ns(10, 5), 5);
    let mut s = success(10_000_000_000);
    s.on_frame(&ConnectionStatus::Connected, false, 0, 0);
    assert_eq!(s, success(10_000_000_000));
}

#[test]
fn hover_round_trip() {
    let mut s = DropZoneState::Idle;
    assert_eq!(s.on_frame(&ConnectionStatus::Connected, true, 0, 0), FrameAction::Render);
    assert_eq!(s, DropZoneState::Hover);
    s.on_frame(&ConnectionStatus::Connected, true, 0, 1);
    assert_eq!(s, DropZoneState::Hover);
    s.on_frame(&ConnectionStatus::Connected, false, 0, 2);
    assert_eq!(s, DropZoneState::Idle);
}

#[test]
fn hover_does_not_replace_a_shown_result() {
    let mut s = success(0);
    s.on_frame(&ConnectionStatus::Connected, true, 0, 1);
    assert_eq!(s, success(0));
}

#[test]
fn several_files_are_refused() {
    let mut s = DropZoneState::Hover;
    assert_eq!(s.on_frame(&ConnectionStatus::Connected, false, 2, 77), FrameAction::Render);
    assert_eq!(
        s,
        DropZoneState::Error {
            message: "Only one file at a time. Please drop a single file.".to_string(),
            occurred_at: 77
        }
    );
}

#[test]
fn single_file_is_handed_over() {
    let mut s = DropZoneState::Hover;
    assert_eq!(s.on_frame(&ConnectionStatus::Connected, false, 1, 5), FrameAction::HandleDroppedFile);
    assert_eq!(s, DropZoneState::Idle);
    let mut s = error(0);
    assert_eq!(s.on_frame(&ConnectionStatus::Connected, false, 1, 5), FrameAction::HandleDroppedFile);
    assert_eq!(s, error(0));
}

#[test]
fn sending_ignores_drags_and_drops() {
    let mut s = sending();
    assert_eq!(s.on_frame(&ConnectionStatus::Connected, true, 1, 5), FrameAction::Render);
    assert_eq!(s, sending());
    assert_eq!(s.on_frame(&ConnectionStatus::Connected, false, 4, 100 * ERROR_SHOWN_NS), FrameAction::Render);
    assert_eq!(s, sending());
    assert!(s.is_sending());
}

#[test]
fn default_state_is_idle() {
    assert_eq!(DropZoneState::default(), DropZoneState::Idle);
}
