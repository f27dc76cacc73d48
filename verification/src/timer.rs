//! Timer callback bridge: the typed half of the capability the script engine
//! calls into.
//!
//! The host supplies one function pointer per timer operation; the engine
//! speaks in typed states and durations. This module holds the translations
//! between the two and a `CTimer` bridge that records, in order, the actions
//! the engine requests, so the unverified adapter around it only has to fire
//! one host callback per recorded action.

use vstd::prelude::*;

verus! {

/// The externally-owned timer's phase, as the engine sees it.
#[derive(Clone, Copy, Debug, PartialEq, Eq, Structural)]
pub enum TimerState {
    NotRunning,
    Running,
    Paused,
    Ended,
}

/// How an integer state code from the host is read: 1, 2 and 3 are the
/// running, paused and ended phases; every other code, including codes a
/// newer host might send, falls back to not running.
pub open spec fn spec_state_from_code(code: i32) -> TimerState {
    if code == 1 {
        TimerState::Running
    } else if code == 2 {
        TimerState::Paused
    } else if code == 3 {
        TimerState::Ended
    } else {
        TimerState::NotRunning
    }
}

/// Maps the host's integer state code to the typed timer state.
pub fn timer_state_from_code(code: i32) -> (s: TimerState)
    ensures
        s == spec_state_from_code(code),
{
    match code {
        1 => TimerState::Running,
        2 => TimerState::Paused,
        3 => TimerState::Ended,
        _ => TimerState::NotRunning,
    }
}

/// Division by 100 that truncates toward zero, as the boundary's fixed-point
/// conversion does on the sub-tick remainder.
pub open spec fn div100_toward_zero(n: int) -> int {
    if n >= 0 {
        n / 100
    } else {
        -((-n) / 100)
    }
}

/// A duration of `secs` whole seconds and `nanos` leftover nanoseconds as a
/// count of 100-nanosecond ticks; the sub-tick remainder truncates toward
/// zero.
pub open spec fn spec_to_ticks(secs: int, nanos: int) -> int {
    secs * 10_000_000 + div100_toward_zero(nanos)
}

/// Converts a signed duration, split into whole seconds and the leftover
/// sub-second nanoseconds, to 100-nanosecond ticks.
pub fn to_ticks(secs: i64, nanos: i32) -> (r: i64)
    requires
        -922_337_203_684 <= secs <= 922_337_203_684,
        -999_999_999 <= nanos <= 999_999_999,
    ensures
        r == spec_to_ticks(secs as int, nanos as int),
{
    let sub: i64 = if nanos >= 0 {
        (nanos as i64) / 100
    } else {
        -((-(nanos as i64)) / 100)
    };
    secs * 10_000_000 + sub
}

/// Converts an unsigned duration, split into whole seconds and the leftover
/// sub-second nanoseconds, to 100-nanosecond ticks. This is the unit in which
/// the host learns how often to step the engine.
pub fn tick_rate_ticks(secs: u64, nanos: u32) -> (r: u64)
    requires
        secs <= 1_844_674_407_369,
        nanos < 1_000_000_000,
    ensures
        r == secs * 10_000_000 + nanos / 100,
{
    secs * 10_000_000 + (nanos / 100) as u64
}

/// For whole seconds the tick conversion is exact: no remainder is lost.
pub proof fn lemma_to_ticks_whole_seconds(secs: int)
    ensures
        spec_to_ticks(secs, 0) == secs * 10_000_000,
{
}

/// Every state code outside the three recognized ones reads as not running,
/// so codes a newer host might send degrade gracefully.
pub proof fn lemma_unrecognized_code_not_running(code: i32)
    requires
        code != 1,
        code != 2,
        code != 3,
    ensures
        spec_state_from_code(code) == TimerState::NotRunning,
{
}

/// One request the engine made of the host's timer, ready to be fired as a
/// single host callback.
#[derive(Debug, PartialEq, Eq)]
pub enum TimerAction {
    Start,
    Split,
    SkipSplit,
    UndoSplit,
    Reset,
    SetGameTime { ticks: i64 },
    PauseGameTime,
    ResumeGameTime,
    Log { message: String },
}

/// The view of a recorded action, with text as a character sequence.
pub enum TimerActionView {
    Start,
    Split,
    SkipSplit,
    UndoSplit,
    Reset,
    SetGameTime { ticks: i64 },
    PauseGameTime,
    ResumeGameTime,
    Log { message: Seq<char> },
}

impl View for TimerAction {
    type V = TimerActionView;

    open spec fn view(&self) -> TimerActionView {
        match self {
            TimerAction::Start => TimerActionView::Start,
            TimerAction::Split => TimerActionView::Split,
            TimerAction::SkipSplit => TimerActionView::SkipSplit,
            TimerAction::UndoSplit => TimerActionView::UndoSplit,
            TimerAction::Reset => TimerActionView::Reset,
            TimerAction::SetGameTime { ticks } => TimerActionView::SetGameTime {
                ticks: *ticks,
            },
            TimerAction::PauseGameTime => TimerActionView::PauseGameTime,
            TimerAction::ResumeGameTime => TimerActionView::ResumeGameTime,
            TimerAction::Log { message } => TimerActionView::Log { message: message@ },
        }
    }
}

/// The views of a sequence of recorded actions, in the same order.
pub open spec fn actions_view(v: Seq<TimerAction>) -> Seq<TimerActionView> {
    Seq::new(v.len(), |i: int| v[i]@)
}

/// The timer callback bridge. The engine's calls land here as typed requests;
/// each method appends exactly one action (or none, for the unsupported
/// variable sink), and the host adapter drains the queue and fires one
/// function pointer per action, in order.
pub struct CTimer {
    pending: Vec<TimerAction>,
}

impl View for CTimer {
    type V = Seq<TimerActionView>;

    closed spec fn view(&self) -> Seq<TimerActionView> {
        actions_view(self.pending@)
    }
}

impl CTimer {
    /// A bridge with nothing recorded yet.
    pub fn new() -> (r: CTimer)
        ensures
            r@ == Seq::<TimerActionView>::empty(),
    {
        let t = CTimer { pending: Vec::new() };
        proof {
            assert(t@ =~= Seq::<TimerActionView>::empty());
        }
        t
    }

    /// Records a request to start the timer.
    pub fn start(&mut self)
        ensures
            final(self)@ == old(self)@.push(TimerActionView::Start),
    {
        self.push_action(TimerAction::Start);
    }

    /// Records a request to split.
    pub fn split(&mut self)
        ensures
            final(self)@ == old(self)@.push(TimerActionView::Split),
    {
        self.push_action(TimerAction::Split);
    }

    /// Records a request to skip the current split.
    pub fn skip_split(&mut self)
        ensures
            final(self)@ == old(self)@.push(TimerActionView::SkipSplit),
    {
        self.push_action(TimerAction::SkipSplit);
    }

    /// Records a request to undo the last split.
    pub fn undo_split(&mut self)
        ensures
            final(self)@ == old(self)@.push(TimerActionView::UndoSplit),
    {
        self.push_action(TimerAction::UndoSplit);
    }

    /// Records a request to reset the timer.
    pub fn reset(&mut self)
        ensures
            final(self)@ == old(self)@.push(TimerActionView::Reset),
    {
        self.push_action(TimerAction::Reset);
    }

    /// Records a request to set the game time, converting the duration to
    /// 100-nanosecond ticks.
    pub fn set_game_time(&mut self, secs: i64, nanos: i32)
        requires
            -922_337_203_684 <= secs <= 922_337_203_684,
            -999_999_999 <= nanos <= 999_999_999,
        ensures
            final(self)@ == old(self)@.push(
                TimerActionView::SetGameTime {
                    ticks: spec_to_ticks(secs as int, nanos as int) as i64,
                },
            ),
    {
        let ticks = to_ticks(secs, nanos);
        self.push_action(TimerAction::SetGameTime { ticks });
    }

    /// Records a request to pause the game time.
    pub fn pause_game_time(&mut self)
        ensures
            final(self)@ == old(self)@.push(TimerActionView::PauseGameTime),
    {
        self.push_action(TimerAction::PauseGameTime);
    }

    /// Records a request to resume the game time.
    pub fn resume_game_time(&mut self)
        ensures
            final(self)@ == old(self)@.push(TimerActionView::ResumeGameTime),
    {
        self.push_action(TimerAction::ResumeGameTime);
    }

    /// The variable sink is not part of this boundary: the call is absorbed
    /// and nothing is recorded.
    pub fn set_variable(&mut self, _key: &str, _value: &str)
        ensures
            final(self)@ == old(self)@,
    {
    }

    /// Records a log message for the host's log callback.
    pub fn log(&mut self, message: String)
        ensures
            final(self)@ == old(self)@.push(TimerActionView::Log { message: message@ }),
    {
        self.push_action(TimerAction::Log { message });
    }

    /// Hands the recorded actions, oldest first, to the adapter and leaves
    /// the queue empty.
    pub fn take_actions(&mut self) -> (r: Vec<TimerAction>)
        ensures
            actions_view(r@) == old(self)@,
            final(self)@ == Seq::<TimerActionView>::empty(),
    {
        let mut taken: Vec<TimerAction> = Vec::new();
        core::mem::swap(&mut taken, &mut self.pending);
        proof {
            assert(actions_view(taken@) =~= old(self)@);
            assert(self@ =~= Seq::<TimerActionView>::empty());
        }
        taken
    }

    fn push_action(&mut self, action: TimerAction)
        ensures
            final(self)@ == old(self)@.push(action@),
    {
        self.pending.push(action);
        proof {
            assert(self@ =~= old(self)@.push(action@));
        }
    }
}

} // verus!
