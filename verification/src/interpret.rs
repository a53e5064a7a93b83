use vstd::prelude::*;
use crate::display::DisplayState;
use crate::display::MONITOR_SLOTS;
use crate::display::WORKSPACE_SLOTS;

verus! {

/// One monitor as the subscriber reads it: only its focused-workspace index
/// matters to the indicator.
#[derive(Clone, Copy, Debug, PartialEq, Eq, Structural)]
pub struct Monitor {
    pub focused_workspace_idx: i64,
}

/// The ordered monitor list plus the index of the focused entry; the index
/// lies outside the list exactly when no monitor is focused.
#[derive(Debug)]
pub struct Monitors {
    pub elements: Vec<Monitor>,
    pub focused_idx: i64,
}

impl Monitors {
    /// The focused monitor, or nothing when `focused_idx` lies outside the list.
    pub open spec fn spec_focused(self) -> Option<Monitor> {
        if 0 <= self.focused_idx < self.elements@.len() {
            Some(self.elements@[self.focused_idx as int])
        } else {
            None
        }
    }

    /// The focused monitor, or nothing when none is focused.
    pub fn focused(&self) -> (r: Option<Monitor>)
        ensures
            r == self.spec_focused(),
    {
        if self.focused_idx >= 0 && (self.focused_idx as u64) < (self.elements.len() as u64) {
            Some(self.elements[self.focused_idx as usize])
        } else {
            None
        }
    }
}

/// One state snapshot from the window manager, reduced to the fields the
/// indicator reads.
#[derive(Debug)]
pub struct Notification {
    pub is_paused: bool,
    pub monitors: Monitors,
}

/// The display state a snapshot maps to.
///
/// Absence of a focused monitor is checked strictly before range validation:
/// "no focus" is a distinct, higher-priority reason to pause. The snapshot is
/// paused, or either index is out of its fixed range, exactly when the result
/// is `Paused`; otherwise the result is the one-based workspace state.
pub open spec fn spec_interpret(n: Notification) -> DisplayState {
    match n.monitors.spec_focused() {
        Option::None => DisplayState::Paused,
        Option::Some(m) => if n.is_paused || !(0 <= n.monitors.focused_idx < MONITOR_SLOTS) || !(0
            <= m.focused_workspace_idx < WORKSPACE_SLOTS) {
            DisplayState::Paused
        } else {
            DisplayState::Workspace {
                monitor: (n.monitors.focused_idx + 1) as u8,
                workspace: (m.focused_workspace_idx + 1) as u8,
            }
        },
    }
}

/// Maps one parsed snapshot to the display state it calls for.
pub fn interpret(n: &Notification) -> (r: DisplayState)
    ensures
        r == spec_interpret(*n),
        r.wf(),
{
    match n.monitors.focused() {
        None => DisplayState::Paused,
        Some(m) => {
            if n.is_paused || n.monitors.focused_idx < 0 || n.monitors.focused_idx >= MONITOR_SLOTS
                || m.focused_workspace_idx < 0 || m.focused_workspace_idx >= WORKSPACE_SLOTS {
                DisplayState::Paused
            } else {
                DisplayState::Workspace {
                    monitor: (n.monitors.focused_idx + 1) as u8,
                    workspace: (m.focused_workspace_idx + 1) as u8,
                }
            }
        },
    }
}

/// What parsing one notification line yields: the snapshot encoded by the
/// text, or nothing when the text is not a well-formed notification. Parsing
/// is a pure function of the text, so its outcome is only named here, never
/// restated.
pub uninterp spec fn parsed_notification(s: Seq<char>) -> Option<Notification>;

/// Relies on `serde_json::from_str::<serde_json::Value>` and on
/// `serde_json::Value`'s accessors `get`, `as_bool`, `as_i64` and `as_array`:
/// parsing is deterministic in the text, and the body only moves the fields of
/// the documented wire shape
/// `{"state":{"isPaused":..,"monitors":{"elements":[{"focusedWorkspaceIdx":..},..],"focusedIdx":..}}}`
/// into the library's own snapshot type, one for one.
#[verifier::external_body]
fn parse_notification(line: &str) -> (r: Option<Notification>)
    ensures
        r == parsed_notification(line@),
{
    let v: serde_json::Value = serde_json::from_str(line).ok()?;
    let state = v.get("state")?;
    let is_paused = state.get("isPaused")?.as_bool()?;
    let ring = state.get("monitors")?;
    let focused_idx = ring.get("focusedIdx")?.as_i64()?;
    let mut elements: Vec<Monitor> = Vec::new();
    for e in ring.get("elements")?.as_array()? {
        elements.push(Monitor { focused_workspace_idx: e.get("focusedWorkspaceIdx")?.as_i64()? });
    }
    Some(Notification { is_paused, monitors: Monitors { elements, focused_idx } })
}

/// The display state one raw line calls for: nothing when the line does not
/// parse (the caller keeps the previous display state — a skipped line is not
/// a `Paused` signal), else the interpretation of the parsed snapshot.
pub open spec fn spec_interpret_line(s: Seq<char>) -> Option<DisplayState> {
    match parsed_notification(s) {
        Option::None => Option::None,
        Option::Some(n) => Option::Some(spec_interpret(n)),
    }
}

/// Parses one raw notification line and maps it to a display state; a line
/// that does not parse yields nothing and must leave the previously displayed
/// state untouched.
pub fn interpret_line(line: &str) -> (r: Option<DisplayState>)
    ensures
        r == spec_interpret_line(line@),
        r matches Some(s) ==> s.wf(),
{
    match parse_notification(line) {
        None => None,
        Some(n) => Some(interpret(&n)),
    }
}

/// An in-range, unpaused snapshot with a focused monitor maps to the
/// one-based workspace state: monitor index `m` in `[0, MONITOR_SLOTS)` and
/// workspace index `w` in `[0, WORKSPACE_SLOTS)` yield `Workspace(m+1, w+1)`.
pub proof fn lemma_interpret_in_range(n: Notification)
    requires
        !n.is_paused,
        n.monitors.spec_focused() is Some,
        0 <= n.monitors.focused_idx < MONITOR_SLOTS,
        0 <= n.monitors.spec_focused().unwrap().focused_workspace_idx < WORKSPACE_SLOTS,
    ensures
        spec_interpret(n) == (DisplayState::Workspace {
            monitor: (n.monitors.focused_idx + 1) as u8,
            workspace: (n.monitors.spec_focused().unwrap().focused_workspace_idx + 1) as u8,
        }),
{
}

/// A paused snapshot maps to `Paused`, whatever the monitor data holds.
pub proof fn lemma_interpret_paused(n: Notification)
    requires
        n.is_paused,
    ensures
        spec_interpret(n) == DisplayState::Paused,
{
}

/// A snapshot without a focused monitor maps to `Paused`; this holds before
/// any range validation, so it covers inputs whose workspace index would also
/// be out of range.
pub proof fn lemma_interpret_unfocused(n: Notification)
    requires
        n.monitors.spec_focused() is None,
    ensures
        spec_interpret(n) == DisplayState::Paused,
{
}

/// A monitor index or a workspace index outside its fixed range maps to
/// `Paused`.
pub proof fn lemma_interpret_out_of_range(n: Notification)
    requires
        !(0 <= n.monitors.focused_idx < MONITOR_SLOTS) || (n.monitors.spec_focused() matches Some(m)
            && !(0 <= m.focused_workspace_idx < WORKSPACE_SLOTS)),
    ensures
        spec_interpret(n) == DisplayState::Paused,
{
}

} // verus!
