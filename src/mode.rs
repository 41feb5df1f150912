use vstd::prelude::*;

verus! {

/// What an input event asks of the live loop.
#[derive(Clone, Copy, Debug, PartialEq, Eq, Structural)]
pub enum Signal {
    /// Stay in the current session.
    Continue,
    /// Leave live mode for search mode.
    GoToDig,
    /// Restart live mode with a fresh session.
    GoToBul,
}

/// The states of the top-level loop.
#[derive(Clone, Copy, Debug, PartialEq, Eq, Structural)]
pub enum Mode {
    Live,
    Search,
    Exit,
}

/// What the top-level loop hears while in a mode.
#[derive(Clone, Copy, Debug, PartialEq, Eq, Structural)]
pub enum ModeEvent {
    /// A signal from live mode's input loop.
    Input(Signal),
    /// Search mode ended.
    SearchClosed,
    /// The user quit.
    Quit,
}

/// The next mode, and whether the live session in progress is torn down.
#[derive(Clone, Copy, Debug, PartialEq, Eq, Structural)]
pub struct Transition {
    pub next: Mode,
    pub end_session: bool,
}

/// Whether a signal ends the live session.
pub open spec fn ends_session_spec(s: Signal) -> bool {
    s == Signal::GoToDig || s == Signal::GoToBul
}

/// Whether a signal ends the live session.
pub fn ends_session(s: Signal) -> (r: bool)
    ensures
        r == ends_session_spec(s),
{
    match s {
        Signal::Continue => false,
        Signal::GoToDig => true,
        Signal::GoToBul => true,
    }
}

/// The transition table of the top-level loop.
pub open spec fn transition_spec(mode: Mode, event: ModeEvent) -> Transition {
    match (mode, event) {
        (Mode::Exit, _) => Transition { next: Mode::Exit, end_session: false },
        (Mode::Live, ModeEvent::Quit) => Transition { next: Mode::Exit, end_session: true },
        (_, ModeEvent::Quit) => Transition { next: Mode::Exit, end_session: false },
        (Mode::Live, ModeEvent::Input(Signal::Continue)) => Transition { next: Mode::Live, end_session: false },
        (Mode::Live, ModeEvent::Input(Signal::GoToDig)) => Transition { next: Mode::Search, end_session: true },
        (Mode::Live, ModeEvent::Input(Signal::GoToBul)) => Transition { next: Mode::Live, end_session: true },
        (Mode::Search, ModeEvent::SearchClosed) => Transition { next: Mode::Live, end_session: false },
        (m, _) => Transition { next: m, end_session: false },
    }
}

/// Where the top-level loop goes on `event` while in `mode`. Leaving live mode,
/// or restarting it, ends the session in progress; closing search mode starts
/// live mode again; quitting ends everything.
pub fn transition(mode: Mode, event: ModeEvent) -> (r: Transition)
    ensures
        r == transition_spec(mode, event),
{
    match (mode, event) {
        (Mode::Exit, _) => Transition { next: Mode::Exit, end_session: false },
        (Mode::Live, ModeEvent::Quit) => Transition { next: Mode::Exit, end_session: true },
        (_, ModeEvent::Quit) => Transition { next: Mode::Exit, end_session: false },
        (Mode::Live, ModeEvent::Input(Signal::Continue)) => Transition { next: Mode::Live, end_session: false },
        (Mode::Live, ModeEvent::Input(Signal::GoToDig)) => Transition { next: Mode::Search, end_session: true },
        (Mode::Live, ModeEvent::Input(Signal::GoToBul)) => Transition { next: Mode::Live, end_session: true },
        (Mode::Search, ModeEvent::SearchClosed) => Transition { next: Mode::Live, end_session: false },
        (m, _) => Transition { next: m, end_session: false },
    }
}

/// A session ends only on leaving live mode: in the other modes none runs.
pub proof fn lemma_session_ends_only_in_live(mode: Mode, event: ModeEvent)
    ensures
        transition_spec(mode, event).end_session ==> mode == Mode::Live,
        mode == Mode::Live && transition_spec(mode, event).next != Mode::Live ==> transition_spec(mode, event).end_session,
{
}

} // verus!
