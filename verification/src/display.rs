use vstd::prelude::*;

verus! {

/// Number of monitor slots the indicator can display (slots `1..=MONITOR_SLOTS`).
pub const MONITOR_SLOTS: i64 = 2;

/// Number of workspace slots the indicator can display (slots `1..=WORKSPACE_SLOTS`).
pub const WORKSPACE_SLOTS: i64 = 9;

/// The derived, closed set of values driving the tray icon.
///
/// `Workspace` slots are one-based: they are always derived as a zero-based
/// index plus one and must fall within `1..=MONITOR_SLOTS` and
/// `1..=WORKSPACE_SLOTS`; anything outside those ranges is invalid, not a
/// distinct state.
#[derive(Clone, Copy, Debug, PartialEq, Eq, Structural)]
pub enum DisplayState {
    Paused,
    Workspace { monitor: u8, workspace: u8 },
}

impl DisplayState {
    /// The `Workspace` slot ranges stated in the data model.
    pub open spec fn wf(self) -> bool {
        match self {
            DisplayState::Paused => true,
            DisplayState::Workspace { monitor, workspace } =>
                1 <= monitor <= MONITOR_SLOTS && 1 <= workspace <= WORKSPACE_SLOTS,
        }
    }
}

/// Icon identifier a display state resolves to: `Paused` maps to `"pause"`,
/// `Workspace(m, w)` maps to `"{w}-{m}"`.
pub open spec fn spec_icon_id(s: DisplayState) -> Seq<char> {
    match s {
        DisplayState::Paused => "pause"@,
        DisplayState::Workspace { monitor, workspace } =>
            spec_workspace_icon_id(monitor as int, workspace as int),
    }
}

/// Icon identifier `"{w}-{m}"` for an in-range workspace state.
pub open spec fn spec_workspace_icon_id(m: int, w: int) -> Seq<char> {
    if m == 1 {
        if w == 1 {
            "1-1"@
        } else if w == 2 {
            "2-1"@
        } else if w == 3 {
            "3-1"@
        } else if w == 4 {
            "4-1"@
        } else if w == 5 {
            "5-1"@
        } else if w == 6 {
            "6-1"@
        } else if w == 7 {
            "7-1"@
        } else if w == 8 {
            "8-1"@
        } else {
            "9-1"@
        }
    } else {
        if w == 1 {
            "1-2"@
        } else if w == 2 {
            "2-2"@
        } else if w == 3 {
            "3-2"@
        } else if w == 4 {
            "4-2"@
        } else if w == 5 {
            "5-2"@
        } else if w == 6 {
            "6-2"@
        } else if w == 7 {
            "7-2"@
        } else if w == 8 {
            "8-2"@
        } else {
            "9-2"@
        }
    }
}

/// Resolves a display state to its icon identifier.
pub fn icon_id(s: &DisplayState) -> (r: &'static str)
    requires
        s.wf(),
    ensures
        r@ == spec_icon_id(*s),
{
    match s {
        DisplayState::Paused => "pause",
        DisplayState::Workspace { monitor, workspace } => {
            if *monitor == 1 {
                if *workspace == 1 {
                    "1-1"
                } else if *workspace == 2 {
                    "2-1"
                } else if *workspace == 3 {
                    "3-1"
                } else if *workspace == 4 {
                    "4-1"
                } else if *workspace == 5 {
                    "5-1"
                } else if *workspace == 6 {
                    "6-1"
                } else if *workspace == 7 {
                    "7-1"
                } else if *workspace == 8 {
                    "8-1"
                } else {
                    "9-1"
                }
            } else {
                if *workspace == 1 {
                    "1-2"
                } else if *workspace == 2 {
                    "2-2"
                } else if *workspace == 3 {
                    "3-2"
                } else if *workspace == 4 {
                    "4-2"
                } else if *workspace == 5 {
                    "5-2"
                } else if *workspace == 6 {
                    "6-2"
                } else if *workspace == 7 {
                    "7-2"
                } else if *workspace == 8 {
                    "8-2"
                } else {
                    "9-2"
                }
            }
        }
    }
}

/// The identifier of the fallback icon applied whenever the state's own icon
/// asset is missing.
pub fn fallback_icon_id() -> (r: &'static str)
    ensures
        r@ == "pause"@,
{
    "pause"
}

/// Chooses which icon the display controller sets for `s`, given whether the
/// state's own icon asset and the `"pause"` fallback asset were found: the
/// state's icon when present, else the fallback, else none (the update is a
/// no-op; no crash, no icon change).
pub fn select_icon(s: &DisplayState, have_own: bool, have_fallback: bool) -> (r: Option<
    &'static str,
>)
    requires
        s.wf(),
    ensures
        have_own ==> (r matches Some(id) && id@ == spec_icon_id(*s)),
        !have_own && have_fallback ==> (r matches Some(id) && id@ == "pause"@),
        !have_own && !have_fallback ==> r is None,
{
    if have_own {
        Some(icon_id(s))
    } else if have_fallback {
        Some(fallback_icon_id())
    } else {
        None
    }
}

} // verus!
