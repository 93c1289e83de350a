use vstd::prelude::*;

verus! {

/// How a system behaves while stepping is enabled.
#[derive(Debug, Clone, Copy, PartialEq, Eq, Structural)]
pub enum SystemBehavior {
    /// Runs regardless of stepping.
    AlwaysRun,
    /// Never runs while stepping.
    NeverRun,
    /// Stepping stops before it when continuing.
    Break,
    /// Stepped like any other system.
    Continue,
}

/// The three checkboxes of a system's row: enabled, ignored by stepping, breakpoint.
#[derive(Debug, Clone, Copy, PartialEq, Eq, Structural)]
pub struct RowFlags {
    pub enabled: bool,
    pub ignore: bool,
    pub breakpoint: bool,
}

/// The checkboxes shown for a system, from its recorded behaviour (a system never
/// touched is enabled and stepped).
pub open spec fn spec_row_flags(b: Option<SystemBehavior>) -> RowFlags {
    match b {
        Some(SystemBehavior::AlwaysRun) => RowFlags { enabled: true, ignore: true, breakpoint: false },
        Some(SystemBehavior::NeverRun) => RowFlags { enabled: false, ignore: false, breakpoint: false },
        Some(SystemBehavior::Break) => RowFlags { enabled: true, ignore: false, breakpoint: true },
        Some(SystemBehavior::Continue) | None => RowFlags { enabled: true, ignore: false, breakpoint: false },
    }
}

/// The checkboxes of a system's row.
pub fn row_flags(b: Option<SystemBehavior>) -> (f: RowFlags)
    ensures
        f == spec_row_flags(b),
{
    match b {
        Some(SystemBehavior::AlwaysRun) => RowFlags { enabled: true, ignore: true, breakpoint: false },
        Some(SystemBehavior::NeverRun) => RowFlags { enabled: false, ignore: false, breakpoint: false },
        Some(SystemBehavior::Break) => RowFlags { enabled: true, ignore: false, breakpoint: true },
        Some(SystemBehavior::Continue) | None => RowFlags { enabled: true, ignore: false, breakpoint: false },
    }
}

/// Which checkboxes of a row were clicked this frame.
#[derive(Debug, Clone, Copy, PartialEq, Eq, Structural)]
pub struct RowClicks {
    pub enabled: bool,
    pub ignore: bool,
    pub breakpoint: bool,
}

/// The behaviour a row's clicks set: each click flips its box; the enable box cannot be
/// clicked while the system is ignored; where several boxes were clicked the last one
/// (enable, ignore, breakpoint) decides.
pub open spec fn spec_row_update(b: Option<SystemBehavior>, c: RowClicks) -> Option<SystemBehavior> {
    let f = spec_row_flags(b);
    if c.breakpoint {
        Some(if !f.breakpoint { SystemBehavior::Break } else { SystemBehavior::Continue })
    } else if c.ignore {
        Some(if !f.ignore { SystemBehavior::AlwaysRun } else { SystemBehavior::Continue })
    } else if c.enabled && !f.ignore {
        Some(if !f.enabled { SystemBehavior::Continue } else { SystemBehavior::NeverRun })
    } else {
        None
    }
}

/// The new behaviour of a system after clicks on its row, if any.
pub fn draw_window(b: Option<SystemBehavior>, clicks: RowClicks) -> (update: Option<SystemBehavior>)
    ensures
        update == spec_row_update(b, clicks),
{
    let f = row_flags(b);
    let mut update: Option<SystemBehavior> = None;
    if !f.ignore && clicks.enabled {
        let enabled = !f.enabled;
        update = Some(
            if enabled {
                SystemBehavior::Continue
            } else {
                SystemBehavior::NeverRun
            },
        );
    }
    if clicks.ignore {
        let ignore = !f.ignore;
        update = Some(
            if ignore {
                SystemBehavior::AlwaysRun
            } else {
                SystemBehavior::Continue
            },
        );
    }
    if clicks.breakpoint {
        let breakpoint = !f.breakpoint;
        update = Some(
            if breakpoint {
                SystemBehavior::Break
            } else {
                SystemBehavior::Continue
            },
        );
    }
    update
}

/// What the stepping keys ask of the stepper this frame.
#[derive(Debug, Clone, Copy, PartialEq, Eq, Structural)]
pub enum StepRequest {
    Idle,
    /// Run the rest of the frame.
    ContinueFrame,
    /// Run one system.
    StepFrame,
}

/// The stepping keys: the grave key toggles stepping; while stepping, space runs the rest
/// of the frame, S steps one system, and holding enter keeps running.
pub fn handle_input(enabled: bool, grave: bool, space: bool, s: bool, enter_held: bool) -> (out: (
    bool,
    StepRequest,
))
    ensures
        out.0 == (enabled != grave),
        out.1 == (if !out.0 {
            StepRequest::Idle
        } else if space {
            StepRequest::ContinueFrame
        } else if s {
            StepRequest::StepFrame
        } else if enter_held {
            StepRequest::ContinueFrame
        } else {
            StepRequest::Idle
        }),
{
    let now = if grave {
        !enabled
    } else {
        enabled
    };
    if !now {
        return (now, StepRequest::Idle);
    }
    let req = if space {
        StepRequest::ContinueFrame
    } else if s {
        StepRequest::StepFrame
    } else if enter_held {
        StepRequest::ContinueFrame
    } else {
        StepRequest::Idle
    };
    (now, req)
}

/// Clicking a row's breakpoint box twice leaves the system stepped as before it was set
/// (ignoring an untouched system); clicking the ignore box on an ignored system makes
/// it stepped again.
pub proof fn lemma_row_toggles(b: Option<SystemBehavior>)
    ensures
        spec_row_update(spec_row_update(None, RowClicks { enabled: false, ignore: false, breakpoint: true }),
            RowClicks { enabled: false, ignore: false, breakpoint: true }) == Some(SystemBehavior::Continue),
        spec_row_update(Some(SystemBehavior::AlwaysRun), RowClicks { enabled: true, ignore: false, breakpoint: false })
            is None,
        spec_row_flags(spec_row_update(b, RowClicks { enabled: false, ignore: false, breakpoint: true })).breakpoint
            == !spec_row_flags(b).breakpoint,
        spec_row_flags(spec_row_update(b, RowClicks { enabled: false, ignore: true, breakpoint: false })).ignore
            == !spec_row_flags(b).ignore,
{
}

} // verus!
