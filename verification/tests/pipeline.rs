use komotray::display::icon_id;
use komotray::display::DisplayState;
use komotray::frame::read_frame;
use komotray::frame::FrameEvent;
use komotray::interpret::interpret_line;
use komotray::pipeline::frame_states;

/// Drives the display the way the subscriber loop does: one frame in, the
/// icon identifiers applied out, lines without a result skipped.
fn applied_icons(bytes: &[u8]) -> Vec<&'static str> {
    let mut applied = Vec::new();
    match read_frame(&bytes.to_vec()) {
        FrameEvent::EmptyStream => {}
        FrameEvent::Records(lines) => {
            for line in &lines {
                if let Some(state) = interpret_line(line) {
                    applied.push(icon_id(&state));
                }
            }
        }
    }
    applied
}

#[test]
fn focused_workspace_line_sets_the_workspace_icon() {
    let bytes =
        b"{\"state\":{\"isPaused\":false,\"monitors\":{\"elements\":[{\"focusedWorkspaceIdx\":3}],\"focusedIdx\":0}}}\n";
    assert_eq!(applied_icons(bytes), vec!["4-1"]);
}

#[test]
fn paused_line_sets_the_pause_icon() {
    let bytes =
        b"{\"state\":{\"isPaused\":true,\"monitors\":{\"elements\":[{\"focusedWorkspaceIdx\":6}],\"focusedIdx\":1}}}\n";
    assert_eq!(applied_icons(bytes), vec!["pause"]);
}

#[test]
fn malformed_line_applies_nothing_and_later_lines_still_apply() {
    let mut bytes: Vec<u8> = Vec::new();
    bytes.extend_from_slice(
        b"{\"state\":{\"isPaused\":false,\"monitors\":{\"elements\":[{\"focusedWorkspaceIdx\":0}],\"focusedIdx\":0}}}\n",
    );
    bytes.extend_from_slice(b"{ broken\n");
    bytes.extend_from_slice(
        b"{\"state\":{\"isPaused\":false,\"monitors\":{\"elements\":[{\"focusedWorkspaceIdx\":1},{\"focusedWorkspaceIdx\":2}],\"focusedIdx\":1}}}\n",
    );
    // The broken middle line leaves the previously applied icon in place.
    assert_eq!(applied_icons(&bytes), vec!["1-1", "3-2"]);
}

#[test]
fn empty_frame_applies_nothing() {
    assert_eq!(applied_icons(b""), Vec::<&'static str>::new());
}

#[test]
fn frame_states_distinguishes_the_empty_stream() {
    assert_eq!(frame_states(&Vec::new()), None);
    let bytes: Vec<u8> =
        b"{\"state\":{\"isPaused\":true,\"monitors\":{\"elements\":[],\"focusedIdx\":0}}}\n".to_vec();
    assert_eq!(frame_states(&bytes), Some(vec![DisplayState::Paused]));
}

#[test]
fn frame_states_keeps_the_order_of_parsable_lines() {
    let mut bytes: Vec<u8> = Vec::new();
    bytes.extend_from_slice(
        b"{\"state\":{\"isPaused\":false,\"monitors\":{\"elements\":[{\"focusedWorkspaceIdx\":4}],\"focusedIdx\":0}}}\n",
    );
    bytes.extend_from_slice(b"nonsense\n");
    bytes.extend_from_slice(
        b"{\"state\":{\"isPaused\":true,\"monitors\":{\"elements\":[],\"focusedIdx\":0}}}\n",
    );
    assert_eq!(
        frame_states(&bytes),
        Some(vec![
            DisplayState::Workspace { monitor: 1, workspace: 5 },
            DisplayState::Paused
        ])
    );
}
