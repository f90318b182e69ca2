//! The status light: its colors, the commands it takes, and the state machine
//! that turns commands and timeouts into what the light shows.
//!
//! Channel values are inverted: 0 is full brightness and 255 is off.
use vstd::prelude::*;
use std::time::Duration;

verus! {

/// Duty values of the three channels; 0 is full brightness, 255 is off.
#[derive(Debug, Clone, Copy, PartialEq, Eq, Structural)]
pub struct Color {
    pub r: u8,
    pub g: u8,
    pub b: u8,
}

impl Color {
    /// Red at full brightness.
    pub fn red() -> (r: Color)
        ensures
            r == (Color { r: 0, g: 255, b: 255 }),
    {
        Color { r: 0, g: 255, b: 255 }
    }

    /// Green at full brightness.
    pub fn green() -> (r: Color)
        ensures
            r == (Color { r: 255, g: 0, b: 255 }),
    {
        Color { r: 255, g: 0, b: 255 }
    }

    /// Blue at full brightness.
    pub fn blue() -> (r: Color)
        ensures
            r == (Color { r: 255, g: 255, b: 0 }),
    {
        Color { r: 255, g: 255, b: 0 }
    }

    /// All channels at full brightness.
    pub fn white() -> (r: Color)
        ensures
            r == (Color { r: 0, g: 0, b: 0 }),
    {
        Color { r: 0, g: 0, b: 0 }
    }

    /// All channels dark.
    pub fn off() -> (r: Color)
        ensures
            r == dark(),
    {
        Color { r: 255, g: 255, b: 255 }
    }
}

/// All channels dark.
pub open spec fn dark() -> Color {
    Color { r: 255, g: 255, b: 255 }
}

/// What the light should do.
#[derive(Clone, Copy)]
pub enum LedCommand {
    Off,
    Continuous(Color),
    /// Alternate between the color and dark, each for the given period.
    Blinking(Color, Duration),
}

/// The peripherals that drive the light: a timer, three channels and three
/// output pins.
pub struct LedPins<T, C0, C1, C2, R, G, B> {
    pub timer: T,
    pub channel_r: C0,
    pub channel_g: C1,
    pub channel_b: C2,
    pub pin_r: R,
    pub pin_g: G,
    pub pin_b: B,
}

/// What reaches the command processor while it waits.
#[derive(Clone, Copy)]
pub enum LedEvent {
    /// A new command.
    Command(LedCommand),
    /// A blink period passed with no command.
    Timeout,
    /// The command queue was closed.
    Closed,
}

/// What the light shows in `mode` with blink phase `on`.
pub open spec fn shown(mode: LedCommand, on: bool) -> Color {
    match mode {
        LedCommand::Off => dark(),
        LedCommand::Continuous(c) => c,
        LedCommand::Blinking(c, _) => if on { c } else { dark() },
    }
}

/// Mode and blink phase after event `e`: a command is taken with the phase
/// reset to on; a timeout while blinking flips the phase; nothing else
/// changes them.
pub open spec fn led_next(mode: LedCommand, on: bool, e: LedEvent) -> (LedCommand, bool) {
    match e {
        LedEvent::Command(cmd) => (cmd, true),
        LedEvent::Timeout => match mode {
            LedCommand::Blinking(_, _) => (mode, !on),
            _ => (mode, on),
        },
        LedEvent::Closed => (mode, on),
    }
}

/// The command processor's state: the current mode and the blink phase.
pub struct LedProcessor {
    mode: LedCommand,
    blink_on: bool,
}

impl LedProcessor {
    /// The command being rendered.
    pub closed spec fn mode(&self) -> LedCommand {
        self.mode
    }

    /// Whether a blinking light is in its lit half.
    pub closed spec fn blink_on(&self) -> bool {
        self.blink_on
    }

    /// A processor that starts with the light off.
    pub fn new() -> (r: LedProcessor)
        ensures
            r.mode() == LedCommand::Off,
            r.blink_on(),
    {
        LedProcessor { mode: LedCommand::Off, blink_on: true }
    }

    /// The color to drive now.
    pub fn render(&self) -> (r: Color)
        ensures
            r == shown(self.mode(), self.blink_on()),
    {
        match self.mode {
            LedCommand::Off => Color::off(),
            LedCommand::Continuous(c) => c,
            LedCommand::Blinking(c, _) => if self.blink_on {
                c
            } else {
                Color::off()
            },
        }
    }

    /// How long to wait for the next command: the blink period while
    /// blinking, without limit otherwise.
    pub fn wait_limit(&self) -> (r: Option<Duration>)
        ensures
            r == (match self.mode() {
                LedCommand::Blinking(_, d) => Some(d),
                _ => None::<Duration>,
            }),
    {
        match self.mode {
            LedCommand::Blinking(_, d) => Some(d),
            _ => None,
        }
    }

    /// Takes one event; returns false when the queue was closed and the
    /// processor is to stop.
    pub fn handle(&mut self, e: LedEvent) -> (running: bool)
        ensures
            (final(self).mode(), final(self).blink_on()) == led_next(
                old(self).mode(),
                old(self).blink_on(),
                e,
            ),
            running == !(e is Closed),
    {
        match e {
            LedEvent::Command(cmd) => {
                self.mode = cmd;
                self.blink_on = true;
                true
            },
            LedEvent::Timeout => {
                if let LedCommand::Blinking(_, _) = self.mode {
                    self.blink_on = !self.blink_on;
                }
                true
            },
            LedEvent::Closed => false,
        }
    }
}

/// Blinking: each timeout flips the phase, so the light alternates between
/// the color and dark, two timeouts bringing it back; a command that arrives
/// while blinking is taken at once with the phase reset to on, and the next
/// render shows that command.
pub proof fn lemma_blinking(c: Color, d: Duration, on: bool, cmd: LedCommand)
    ensures
        ({
            let m = LedCommand::Blinking(c, d);
            let (m1, on1) = led_next(m, on, LedEvent::Timeout);
            let (m2, on2) = led_next(m1, on1, LedEvent::Timeout);
            &&& m1 == m && on1 == !on
            &&& shown(m1, on1) == (if on { dark() } else { c })
            &&& m2 == m && on2 == on
            &&& shown(m2, on2) == shown(m, on)
        }),
        led_next(LedCommand::Blinking(c, d), on, LedEvent::Command(cmd)) == (cmd, true),
        shown(cmd, true) == (match cmd {
            LedCommand::Off => dark(),
            LedCommand::Continuous(k) => k,
            LedCommand::Blinking(k, _) => k,
        }),
{
}

} // verus!
