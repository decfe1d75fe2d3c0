//! Emphasis states and the theme keys they select.

use vstd::prelude::*;

verus! {

/// The emphasis (severity) state of a widget. It selects which pair of
/// theme keys the renderer looks up for the background and foreground
/// colors of the rendered record.
#[derive(Clone, Copy, Debug, PartialEq, Eq, Structural)]
pub enum State {
    Idle,
    Info,
    Good,
    Warning,
    Critical,
}

/// The theme key for the background color of a state.
pub open spec fn bg_key_of(s: State) -> Seq<char> {
    match s {
        State::Idle => "idle_bg"@,
        State::Info => "info_bg"@,
        State::Good => "good_bg"@,
        State::Warning => "warning_bg"@,
        State::Critical => "critical_bg"@,
    }
}

/// The theme key for the foreground color of a state.
pub open spec fn fg_key_of(s: State) -> Seq<char> {
    match s {
        State::Idle => "idle_fg"@,
        State::Info => "info_fg"@,
        State::Good => "good_fg"@,
        State::Warning => "warning_fg"@,
        State::Critical => "critical_fg"@,
    }
}

impl State {
    /// The pair of theme keys (background, foreground) this state selects.
    pub fn theme_keys(self) -> (r: (&'static str, &'static str))
        ensures
            r.0@ == bg_key_of(self),
            r.1@ == fg_key_of(self),
    {
        match self {
            State::Idle => ("idle_bg", "idle_fg"),
            State::Info => ("info_bg", "info_fg"),
            State::Good => ("good_bg", "good_fg"),
            State::Warning => ("warning_bg", "warning_fg"),
            State::Critical => ("critical_bg", "critical_fg"),
        }
    }
}

} // verus!
