//! How an acquisition session is paced, from its polling period, and the
//! command frames sent to the sensor.
use vstd::prelude::*;

verus! {

/// Seconds the sensor needs after waking before its readings are usable.
pub const WAKE_UP_SECONDS: u64 = 5;

/// Seconds over which readings are averaged when the sensor sleeps between
/// cycles.
pub const SLEEP_WINDOW_SECONDS: u64 = 30;

/// Timeout, in seconds, of a single-frame read.
pub const SINGLE_READ_SECONDS: u64 = 3;

/// A length of time: whole seconds and milliseconds below one second.
#[derive(Debug, Clone, Copy, PartialEq, Eq, Structural)]
pub struct Span {
    pub secs: u64,
    pub millis: u32,
}

impl Span {
    /// The length in milliseconds.
    pub open spec fn total_ms(&self) -> int {
        self.secs * 1000 + self.millis
    }
}

/// How the sensor is driven during a session.
#[derive(Debug, Clone, Copy, PartialEq, Eq, Structural)]
pub enum PowerMode {
    /// Awake, pushing frames on its own.
    Active,
    /// Awake, sending a frame only when asked.
    Passive,
    /// Asleep between cycles, woken shortly before each sampling window.
    Sleeping,
}

/// The power mode for a polling period of `secs` seconds.
pub open spec fn mode_for(secs: u64) -> PowerMode {
    if secs <= 3 {
        PowerMode::Active
    } else if secs <= 59 {
        PowerMode::Passive
    } else {
        PowerMode::Sleeping
    }
}

/// The pause between cycles and the averaging window, in milliseconds, for
/// a polling period of `secs` seconds.
pub open spec fn durations_for(secs: u64) -> (int, int) {
    if secs <= 3 {
        (10, 0)
    } else if secs <= 59 {
        (10, secs * 1000)
    } else {
        ((secs - WAKE_UP_SECONDS - SLEEP_WINDOW_SECONDS) * 1000, SLEEP_WINDOW_SECONDS * 1000)
    }
}

/// The pause between cycles and the averaging window for a polling period
/// of `secs` seconds, as spans.
pub open spec fn spans_for(secs: u64) -> (Span, Span) {
    if secs <= 3 {
        (Span { secs: 0, millis: 10 }, Span { secs: 0, millis: 0 })
    } else if secs <= 59 {
        (Span { secs: 0, millis: 10 }, Span { secs: secs, millis: 0 })
    } else {
        (
            Span { secs: (secs - WAKE_UP_SECONDS - SLEEP_WINDOW_SECONDS) as u64, millis: 0 },
            Span { secs: SLEEP_WINDOW_SECONDS, millis: 0 },
        )
    }
}

/// The power mode for a polling period of `period_secs` whole seconds.
pub fn power_mode(period_secs: u64) -> (r: PowerMode)
    ensures
        r == mode_for(period_secs),
{
    if period_secs <= 3 {
        PowerMode::Active
    } else if period_secs <= 59 {
        PowerMode::Passive
    } else {
        PowerMode::Sleeping
    }
}

/// The pause between cycles and the averaging window for a polling period of
/// `period_secs` whole seconds. A zero window means one single-frame read
/// per cycle.
pub fn get_loop_durations(period_secs: u64) -> (r: (Span, Span))
    ensures
        r == spans_for(period_secs),
        (r.0.total_ms(), r.1.total_ms()) == durations_for(period_secs),
        r.0.millis < 1000,
        r.1.millis < 1000,
{
    if period_secs <= 3 {
        (Span { secs: 0, millis: 10 }, Span { secs: 0, millis: 0 })
    } else if period_secs <= 59 {
        (Span { secs: 0, millis: 10 }, Span { secs: period_secs, millis: 0 })
    } else {
        (
            Span { secs: period_secs - WAKE_UP_SECONDS - SLEEP_WINDOW_SECONDS, millis: 0 },
            Span { secs: SLEEP_WINDOW_SECONDS, millis: 0 },
        )
    }
}

/// Whether the sensor sleeps between cycles: for periods of a minute or more.
pub fn should_sleep(period_secs: u64) -> (r: bool)
    ensures
        r == (period_secs >= 60),
        r == (mode_for(period_secs) == PowerMode::Sleeping),
{
    period_secs >= 60
}

/// A command to the sensor.
#[derive(Debug, Clone, Copy, PartialEq, Eq, Structural)]
pub enum SensorCommand {
    /// Switch to passive mode: frames only on request.
    Passive,
    /// Request one frame (passive mode).
    Read,
    /// Go to sleep.
    Sleep,
    /// Wake up.
    Wake,
}

/// The seven bytes that carry command `c` on the wire.
pub open spec fn command_bytes(c: SensorCommand) -> Seq<u8> {
    match c {
        SensorCommand::Passive => seq![0x42u8, 0x4D, 0xE1, 0x00, 0x00, 0x01, 0x70],
        SensorCommand::Read => seq![0x42u8, 0x4D, 0xE2, 0x00, 0x00, 0x01, 0x71],
        SensorCommand::Sleep => seq![0x42u8, 0x4D, 0xE4, 0x00, 0x00, 0x01, 0x73],
        SensorCommand::Wake => seq![0x42u8, 0x4D, 0xE4, 0x00, 0x01, 0x01, 0x74],
    }
}

impl SensorCommand {
    /// The command's frame as sent to the sensor.
    pub fn bytes(&self) -> (r: [u8; 7])
        ensures
            r@ == command_bytes(*self),
    {
        let r: [u8; 7] = match self {
            SensorCommand::Passive => [0x42, 0x4D, 0xE1, 0x00, 0x00, 0x01, 0x70],
            SensorCommand::Read => [0x42, 0x4D, 0xE2, 0x00, 0x00, 0x01, 0x71],
            SensorCommand::Sleep => [0x42, 0x4D, 0xE4, 0x00, 0x00, 0x01, 0x73],
            SensorCommand::Wake => [0x42, 0x4D, 0xE4, 0x00, 0x01, 0x01, 0x74],
        };
        assert(r@ =~= command_bytes(*self));
        r
    }
}

/// The pair of trailing bytes of every command frame is the big-endian sum of
/// the five bytes before it.
pub proof fn lemma_command_checksum(c: SensorCommand)
    ensures
        ({
            let b = command_bytes(c);
            b[5] as int * 256 + b[6] as int == b[0] + b[1] + b[2] + b[3] + b[4]
        }),
{
}

} // verus!
