//! The decisions of one acquisition session, as a state machine: the worker
//! that runs a session performs each action it is handed and reports back
//! how the action ended.
use vstd::prelude::*;
use crate::schedule::{
    get_loop_durations, power_mode, mode_for, spans_for, PowerMode, SensorCommand, Span,
    SINGLE_READ_SECONDS, WAKE_UP_SECONDS,
};

verus! {

/// What the worker does next.
#[derive(Debug, Clone, Copy, PartialEq, Eq, Structural)]
pub enum SessionAction {
    /// Write a command to the sensor; a failed write is ignored.
    Send(SensorCommand),
    /// Block for the span.
    Pause(Span),
    /// Wait up to the span for the stop signal.
    AwaitStop(Span),
    /// Drop the bytes buffered from the sensor.
    ClearInput,
    /// Read one frame within the span and emit it as a measurement if it is
    /// valid.
    ReadFrame(Span),
    /// Average the frames read during the span and emit the mean, if any
    /// frame was read.
    Average(Span),
    /// End the session.
    Halt,
}

/// How the last action ended.
#[derive(Debug, Clone, Copy, PartialEq, Eq, Structural)]
pub enum SessionEvent {
    /// The action ran to its end, or the wait for the stop signal timed out.
    Done,
    /// The stop signal came, or its sender was dropped, during a wait.
    Stopped,
}

/// Where a session stands: named after the action last handed out.
#[derive(Debug, Clone, Copy, PartialEq, Eq, Structural)]
pub enum Phase {
    Start,
    WokeAtStart,
    Settling,
    Waiting,
    Waking,
    WakeDelay,
    PassiveSet,
    Clearing,
    Sampling,
    Resting,
    PoweringDown,
    Halted,
}

/// Whether a cycle reads one frame (a window of at most three seconds)
/// rather than averaging.
pub open spec fn single_read(secs: u64) -> bool {
    spans_for(secs).1.secs <= SINGLE_READ_SECONDS
}

/// The next phase and action of a session with a polling period of `secs`
/// seconds, in phase `ph`, after event `e`. The stop signal is heeded only at
/// the wait between cycles; the session then puts the sensor to sleep and
/// halts.
pub open spec fn step(secs: u64, ph: Phase, e: SessionEvent) -> (Phase, SessionAction) {
    let (pause, window) = spans_for(secs);
    let wake = Span { secs: WAKE_UP_SECONDS, millis: 0 };
    match ph {
        Phase::Start => if mode_for(secs) != PowerMode::Active {
            (Phase::WokeAtStart, SessionAction::Send(SensorCommand::Wake))
        } else {
            (Phase::Waiting, SessionAction::AwaitStop(pause))
        },
        Phase::WokeAtStart => (Phase::Settling, SessionAction::Pause(wake)),
        Phase::Settling => (Phase::Waiting, SessionAction::AwaitStop(pause)),
        Phase::Waiting => if e == SessionEvent::Stopped {
            (Phase::PoweringDown, SessionAction::Send(SensorCommand::Sleep))
        } else if mode_for(secs) == PowerMode::Sleeping {
            (Phase::Waking, SessionAction::Send(SensorCommand::Wake))
        } else {
            (Phase::Clearing, SessionAction::ClearInput)
        },
        Phase::Waking => (Phase::WakeDelay, SessionAction::Pause(wake)),
        Phase::WakeDelay => (Phase::PassiveSet, SessionAction::Send(SensorCommand::Passive)),
        Phase::PassiveSet => (Phase::Clearing, SessionAction::ClearInput),
        Phase::Clearing => if single_read(secs) {
            (Phase::Sampling, SessionAction::ReadFrame(Span { secs: SINGLE_READ_SECONDS, millis: 0 }))
        } else {
            (Phase::Sampling, SessionAction::Average(window))
        },
        Phase::Sampling => if !single_read(secs) && mode_for(secs) == PowerMode::Sleeping {
            (Phase::Resting, SessionAction::Send(SensorCommand::Sleep))
        } else {
            (Phase::Waiting, SessionAction::AwaitStop(pause))
        },
        Phase::Resting => (Phase::Waiting, SessionAction::AwaitStop(pause)),
        Phase::PoweringDown => (Phase::Halted, SessionAction::Halt),
        Phase::Halted => (Phase::Halted, SessionAction::Halt),
    }
}

/// The actions handed out for the events `es`, in order, from phase `ph`.
pub open spec fn run(secs: u64, ph: Phase, es: Seq<SessionEvent>) -> Seq<SessionAction>
    decreases es.len(),
{
    if es.len() == 0 {
        Seq::empty()
    } else {
        let (next, a) = step(secs, ph, es[0]);
        seq![a] + run(secs, next, es.drop_first())
    }
}

/// One acquisition session.
pub struct Session {
    period_secs: u64,
    phase: Phase,
}

impl Session {
    /// The polling period, in whole seconds.
    pub closed spec fn period(&self) -> u64 {
        self.period_secs
    }

    /// Where the session stands.
    pub closed spec fn phase(&self) -> Phase {
        self.phase
    }

    /// A session with a polling period of `period_secs` whole seconds, before
    /// its first action.
    pub fn new(period_secs: u64) -> (r: Session)
        ensures
            r.period() == period_secs,
            r.phase() == Phase::Start,
    {
        Session { period_secs, phase: Phase::Start }
    }

    /// Whether the session has ended.
    pub fn is_halted(&self) -> (r: bool)
        ensures
            r == (self.phase() == Phase::Halted),
    {
        matches!(self.phase, Phase::Halted)
    }

    /// Takes how the last action ended (anything for the first call) and
    /// returns the next action.
    pub fn next(&mut self, e: SessionEvent) -> (a: SessionAction)
        ensures
            final(self).period() == old(self).period(),
            (final(self).phase(), a) == step(old(self).period(), old(self).phase(), e),
    {
        let (pause, window) = get_loop_durations(self.period_secs);
        let mode = power_mode(self.period_secs);
        let wake = Span { secs: WAKE_UP_SECONDS, millis: 0 };
        let single = window.secs <= SINGLE_READ_SECONDS;
        let (next, a) = match self.phase {
            Phase::Start => if mode != PowerMode::Active {
                (Phase::WokeAtStart, SessionAction::Send(SensorCommand::Wake))
            } else {
                (Phase::Waiting, SessionAction::AwaitStop(pause))
            },
            Phase::WokeAtStart => (Phase::Settling, SessionAction::Pause(wake)),
            Phase::Settling => (Phase::Waiting, SessionAction::AwaitStop(pause)),
            Phase::Waiting => if e == SessionEvent::Stopped {
                (Phase::PoweringDown, SessionAction::Send(SensorCommand::Sleep))
            } else if mode == PowerMode::Sleeping {
                (Phase::Waking, SessionAction::Send(SensorCommand::Wake))
            } else {
                (Phase::Clearing, SessionAction::ClearInput)
            },
            Phase::Waking => (Phase::WakeDelay, SessionAction::Pause(wake)),
            Phase::WakeDelay => (Phase::PassiveSet, SessionAction::Send(SensorCommand::Passive)),
            Phase::PassiveSet => (Phase::Clearing, SessionAction::ClearInput),
            Phase::Clearing => if single {
                (Phase::Sampling, SessionAction::ReadFrame(Span { secs: SINGLE_READ_SECONDS, millis: 0 }))
            } else {
                (Phase::Sampling, SessionAction::Average(window))
            },
            Phase::Sampling => if !single && mode == PowerMode::Sleeping {
                (Phase::Resting, SessionAction::Send(SensorCommand::Sleep))
            } else {
                (Phase::Waiting, SessionAction::AwaitStop(pause))
            },
            Phase::Resting => (Phase::Waiting, SessionAction::AwaitStop(pause)),
            Phase::PoweringDown => (Phase::Halted, SessionAction::Halt),
            Phase::Halted => (Phase::Halted, SessionAction::Halt),
        };
        self.phase = next;
        a
    }
}

proof fn lemma_halted_stays(secs: u64, es: Seq<SessionEvent>)
    ensures
        run(secs, Phase::Halted, es).len() == es.len(),
        forall|i: int| 0 <= i < es.len() ==> run(secs, Phase::Halted, es)[i] == SessionAction::Halt,
    decreases es.len(),
{
    if es.len() > 0 {
        lemma_halted_stays(secs, es.drop_first());
    }
}

/// Shutdown: a stop signal at the wait between cycles makes the session send
/// exactly one sleep command and then only halt, whatever is reported after
/// it; in particular it reads and emits no further measurement.
pub proof fn lemma_stop_powers_down(secs: u64, es: Seq<SessionEvent>)
    requires
        es.len() >= 1,
        es[0] == SessionEvent::Stopped,
    ensures
        run(secs, Phase::Waiting, es).len() == es.len(),
        run(secs, Phase::Waiting, es)[0] == SessionAction::Send(SensorCommand::Sleep),
        forall|i: int| 1 <= i < es.len() ==> run(secs, Phase::Waiting, es)[i] == SessionAction::Halt,
{
    let rest = es.drop_first();
    if rest.len() > 0 {
        lemma_halted_stays(secs, rest.drop_first());
        assert(run(secs, Phase::PoweringDown, rest) == seq![SessionAction::Halt] + run(secs, Phase::Halted, rest.drop_first()));
    }
    assert(run(secs, Phase::Waiting, es) == seq![SessionAction::Send(SensorCommand::Sleep)] + run(secs, Phase::PoweringDown, rest));
}

/// A session reaches its wait for the stop signal within a bounded number of
/// actions from any phase but the end of the session, so a stop is heeded
/// within one cycle.
pub proof fn lemma_wait_reached(secs: u64, ph: Phase)
    requires
        ph != Phase::PoweringDown,
        ph != Phase::Halted,
    ensures
        ({
            let p1 = step(secs, ph, SessionEvent::Done).0;
            let p2 = step(secs, p1, SessionEvent::Done).0;
            let p3 = step(secs, p2, SessionEvent::Done).0;
            let p4 = step(secs, p3, SessionEvent::Done).0;
            let p5 = step(secs, p4, SessionEvent::Done).0;
            let p6 = step(secs, p5, SessionEvent::Done).0;
            ph == Phase::Waiting || p1 == Phase::Waiting || p2 == Phase::Waiting || p3 == Phase::Waiting
                || p4 == Phase::Waiting || p5 == Phase::Waiting || p6 == Phase::Waiting
        }),
{
}

} // verus!
