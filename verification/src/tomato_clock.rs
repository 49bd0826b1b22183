//! A work/break interval timer.
//!
//! The clock counts down the time left in the current phase and moves on to
//! the next phase when the time is up. It never reads a clock itself: every
//! message that depends on the time carries the reading, in nanoseconds
//! since some fixed origin chosen by the caller. Durations are nanoseconds
//! as well.

use vstd::prelude::*;
use vstd::string::*;

verus! {

/// Nanoseconds in one second.
pub const NANOS_PER_SEC: u128 = 1_000_000_000;

/// Length of a work phase: 1500 seconds.
pub const WORK_DURATION: u128 = 1_500_000_000_000;

/// Length of a break: 300 seconds.
pub const BREAK_DURATION: u128 = 300_000_000_000;

/// Length of the pause between a work phase and a break, either way:
/// 10 seconds.
pub const INTERVAL: u128 = 10_000_000_000;

/// How often, in milliseconds, a running clock wants to be told the time.
pub const TICK_PERIOD_MS: u64 = 10;

/// The phase the clock is in.
#[derive(Clone, Copy, Debug, PartialEq, Eq, Structural)]
pub enum ClockType {
    Work,
    Break,
    WorkInterval,
    BreakInterval,
}

/// Whether the clock is running, and if so when it was last told the time.
#[derive(Clone, Copy, Debug, PartialEq, Eq, Structural)]
pub enum State {
    Idle,
    Ticking { last_tick: u128 },
}

/// What can happen to the clock.
#[derive(Clone, Copy, Debug, PartialEq, Eq, Structural)]
pub enum Message {
    /// Start or stop the clock; `now` is the time at which this happens.
    Toggle { now: u128 },
    /// Go back to a full work phase.
    Reset,
    /// Time has passed: it is `now`.
    Tick { now: u128 },
}

/// The three numbers on the clock's face.
#[derive(Clone, Copy, Debug, PartialEq, Eq, Structural)]
pub struct ClockFace {
    /// Whole minutes within the hour, below 60.
    pub minutes: u8,
    /// Whole seconds within the minute, below 60.
    pub seconds: u8,
    /// Hundredths of a second, below 100.
    pub centis: u8,
}

/// The timer: time left in the current phase, whether it is running, and
/// which phase it is in.
#[derive(Clone, Copy, Debug, PartialEq, Eq, Structural)]
pub struct TomatoClock {
    pub duration: u128,
    pub state: State,
    pub clock_type: ClockType,
}

/// The time from `earlier` to `later`, or zero if `later` is not later.
pub open spec fn elapsed_between(earlier: u128, later: u128) -> u128 {
    if later >= earlier {
        (later - earlier) as u128
    } else {
        0
    }
}

/// The character for a single decimal digit.
pub open spec fn digit_char(digit: int) -> char {
    if digit == 0 {
        '0'
    } else if digit == 1 {
        '1'
    } else if digit == 2 {
        '2'
    } else if digit == 3 {
        '3'
    } else if digit == 4 {
        '4'
    } else if digit == 5 {
        '5'
    } else if digit == 6 {
        '6'
    } else if digit == 7 {
        '7'
    } else if digit == 8 {
        '8'
    } else {
        '9'
    }
}

/// A number below 100 written with exactly two decimal digits.
pub open spec fn two_digits(value: int) -> Seq<char> {
    seq![digit_char(value / 10), digit_char(value % 10)]
}

impl ClockType {
    /// The phase that follows this one: work, pause, break, pause, and
    /// round again.
    pub open spec fn successor(self) -> ClockType {
        match self {
            ClockType::Work => ClockType::WorkInterval,
            ClockType::Break => ClockType::BreakInterval,
            ClockType::WorkInterval => ClockType::Break,
            ClockType::BreakInterval => ClockType::Work,
        }
    }

    /// How long this phase lasts.
    pub open spec fn span(self) -> u128 {
        match self {
            ClockType::Work => WORK_DURATION,
            ClockType::Break => BREAK_DURATION,
            ClockType::WorkInterval => INTERVAL,
            ClockType::BreakInterval => INTERVAL,
        }
    }

    /// The phase's name as text.
    pub open spec fn label_text(self) -> Seq<char> {
        match self {
            ClockType::Work => "Working"@,
            ClockType::Break => "Breaking"@,
            ClockType::WorkInterval => "Interval"@,
            ClockType::BreakInterval => "Interval"@,
        }
    }

    /// The name shown for this phase: both pauses are an "Interval".
    pub fn label(&self) -> (label: &'static str)
        ensures
            label@ == self.label_text(),
    {
        match self {
            ClockType::Work => "Working",
            ClockType::Break => "Breaking",
            _ => "Interval",
        }
    }

    /// The message announcing that this phase is over.
    pub fn done_notice(&self) -> (notice: String)
        ensures
            notice@ == "Your ["@ + self.label_text() + "] timer is done!"@,
    {
        let mut notice = String::from_str("Your [");
        notice.append(self.label());
        notice.append("] timer is done!");
        notice
    }
}

impl ClockFace {
    /// The face as text: minutes, a colon, seconds, a full stop and
    /// hundredths, each written with two digits.
    pub open spec fn text(self) -> Seq<char> {
        two_digits(self.minutes as int) + seq![':'] + two_digits(self.seconds as int) + seq!['.']
            + two_digits(self.centis as int)
    }
}

impl TomatoClock {
    /// The clock after `message`, and the phase that has just ended, if
    /// one has.
    ///
    /// * `Toggle` starts an idle clock at `now` and stops a running one.
    /// * `Reset` returns to a full work phase and leaves running or idle as
    ///   it is.
    /// * `Tick` does nothing to an idle clock. On a running one it takes
    ///   the time since the last tick off the time left; if no more than
    ///   that was left, the phase ends instead: the next phase begins with
    ///   its full length, and the last tick stays where it was.
    pub open spec fn after(self, message: Message) -> (TomatoClock, Option<ClockType>) {
        match message {
            Message::Toggle { now } => (
                TomatoClock {
                    state: match self.state {
                        State::Idle => State::Ticking { last_tick: now },
                        State::Ticking { .. } => State::Idle,
                    },
                    ..self
                },
                None,
            ),
            Message::Reset => (
                TomatoClock { clock_type: ClockType::Work, duration: WORK_DURATION, ..self },
                None,
            ),
            Message::Tick { now } => match self.state {
                State::Idle => (self, None),
                State::Ticking { last_tick } => {
                    let elapsed = elapsed_between(last_tick, now);
                    if self.duration <= elapsed {
                        (
                            TomatoClock {
                                clock_type: self.clock_type.successor(),
                                duration: self.clock_type.successor().span(),
                                ..self
                            },
                            Some(self.clock_type),
                        )
                    } else {
                        (
                            TomatoClock {
                                duration: (self.duration - elapsed) as u128,
                                state: State::Ticking { last_tick: now },
                                ..self
                            },
                            None,
                        )
                    }
                },
            },
        }
    }

    /// The numbers on the face of a clock with this much time left.
    pub open spec fn face_of(duration: u128) -> ClockFace {
        let seconds = duration / NANOS_PER_SEC;
        ClockFace {
            minutes: ((seconds % 3600) / 60) as u8,
            seconds: (seconds % 60) as u8,
            centis: ((duration % NANOS_PER_SEC) / 10_000_000) as u8,
        }
    }

    /// An idle clock at the start of a work phase.
    pub fn new() -> (clock: Self)
        ensures
            clock == (TomatoClock {
                duration: WORK_DURATION,
                state: State::Idle,
                clock_type: ClockType::Work,
            }),
    {
        TomatoClock { duration: WORK_DURATION, state: State::Idle, clock_type: ClockType::Work }
    }

    /// Moves on to the next phase and gives it its full length.
    pub fn next(&mut self)
        ensures
            final(self).clock_type == old(self).clock_type.successor(),
            final(self).duration == old(self).clock_type.successor().span(),
            final(self).state == old(self).state,
    {
        self.duration = match self.clock_type {
            ClockType::Work => {
                self.clock_type = ClockType::WorkInterval;
                INTERVAL
            },
            ClockType::Break => {
                self.clock_type = ClockType::BreakInterval;
                INTERVAL
            },
            ClockType::WorkInterval => {
                self.clock_type = ClockType::Break;
                BREAK_DURATION
            },
            ClockType::BreakInterval => {
                self.clock_type = ClockType::Work;
                WORK_DURATION
            },
        };
    }

    /// Applies `message` to the clock. Returns the phase that has just
    /// ended when this message ended one: the caller announces it.
    pub fn update(&mut self, message: Message) -> (finished: Option<ClockType>)
        ensures
            *final(self) == old(self).after(message).0,
            finished == old(self).after(message).1,
    {
        match message {
            Message::Toggle { now } => match self.state {
                State::Idle => {
                    self.state = State::Ticking { last_tick: now };
                },
                State::Ticking { .. } => {
                    self.state = State::Idle;
                },
            },
            Message::Tick { now } => {
                if let State::Ticking { last_tick } = self.state {
                    let elapsed: u128 = if now >= last_tick {
                        now - last_tick
                    } else {
                        0
                    };
                    if self.duration <= elapsed {
                        let last_clock_type = self.clock_type;
                        self.next();
                        return Some(last_clock_type);
                    }
                    self.duration -= elapsed;
                    self.state = State::Ticking { last_tick: now };
                }
            },
            Message::Reset => {
                self.clock_type = ClockType::Work;
                self.duration = WORK_DURATION;
            },
        }
        None
    }

    /// How often the clock wants a `Tick`, in milliseconds: every
    /// [`TICK_PERIOD_MS`] while it is running, never while it is idle.
    pub fn tick_period(&self) -> (period: Option<u64>)
        ensures
            period == (match self.state {
                State::Idle => None::<u64>,
                State::Ticking { .. } => Some(TICK_PERIOD_MS),
            }),
    {
        match self.state {
            State::Idle => None,
            State::Ticking { .. } => Some(TICK_PERIOD_MS),
        }
    }

    /// The caption of the button that toggles the clock.
    pub fn toggle_label(&self) -> (label: &'static str)
        ensures
            label@ == (match self.state {
                State::Idle => "Start"@,
                State::Ticking { .. } => "Stop"@,
            }),
    {
        match self.state {
            State::Idle => "Start",
            State::Ticking { .. } => "Stop",
        }
    }

    /// The time left, as minutes within the hour, seconds within the
    /// minute and hundredths of a second.
    pub fn face(&self) -> (face: ClockFace)
        ensures
            face == Self::face_of(self.duration),
            face.minutes < 60,
            face.seconds < 60,
            face.centis < 100,
    {
        let seconds: u128 = self.duration / NANOS_PER_SEC;
        let subsec_millis: u128 = (self.duration % NANOS_PER_SEC) / 1_000_000;
        ClockFace {
            minutes: ((seconds % 3600) / 60) as u8,
            seconds: (seconds % 60) as u8,
            centis: (subsec_millis / 10) as u8,
        }
    }

    /// The time left, written as `MM:SS.CC`.
    pub fn face_text(&self) -> (shown: String)
        ensures
            shown@ == Self::face_of(self.duration).text(),
    {
        proof {
            reveal_strlit(":");
            reveal_strlit(".");
        }
        let face = self.face();
        let mut shown = two_digit_text(face.minutes);
        shown.append(":");
        shown.append(two_digit_text(face.seconds).as_str());
        shown.append(".");
        shown.append(two_digit_text(face.centis).as_str());
        shown
    }
}

/// The two-digit text for a number below 100.
fn two_digit_text(value: u8) -> (text: String)
    requires
        value < 100,
    ensures
        text@ == two_digits(value as int),
{
    let mut text = String::from_str(digit_text(value / 10));
    text.append(digit_text(value % 10));
    text
}

/// The text for a single decimal digit.
fn digit_text(digit: u8) -> (text: &'static str)
    requires
        digit < 10,
    ensures
        text@ == seq![digit_char(digit as int)],
{
    proof {
        reveal_strlit("0");
        reveal_strlit("1");
        reveal_strlit("2");
        reveal_strlit("3");
        reveal_strlit("4");
        reveal_strlit("5");
        reveal_strlit("6");
        reveal_strlit("7");
        reveal_strlit("8");
        reveal_strlit("9");
    }
    if digit == 0 {
        "0"
    } else if digit == 1 {
        "1"
    } else if digit == 2 {
        "2"
    } else if digit == 3 {
        "3"
    } else if digit == 4 {
        "4"
    } else if digit == 5 {
        "5"
    } else if digit == 6 {
        "6"
    } else if digit == 7 {
        "7"
    } else if digit == 8 {
        "8"
    } else {
        "9"
    }
}

/// The phases come round in a cycle of four: work, pause, break, pause.
pub proof fn lemma_phases_cycle(phase: ClockType)
    ensures
        phase.successor().successor().successor().successor() == phase,
        phase.successor() != phase,
        phase.successor().successor() != phase,
        ClockType::Work.successor().successor() == ClockType::Break,
        ClockType::Break.successor().successor() == ClockType::Work,
{
}

/// A tick on a running clock either takes the elapsed time off the time
/// left, or ends the phase and starts the next one at full length. Whatever
/// it does, it leaves the clock running.
pub proof fn lemma_tick_counts_down(clock: TomatoClock, last_tick: u128, now: u128)
    requires
        clock.state == (State::Ticking { last_tick }),
    ensures
        ({
            let (next, finished) = clock.after(Message::Tick { now });
            let elapsed = elapsed_between(last_tick, now);
            &&& next.state is Ticking
            &&& finished is Some <==> clock.duration <= elapsed
            &&& finished is None ==> next.duration + elapsed == clock.duration && next.clock_type
                == clock.clock_type
            &&& finished is Some ==> finished == Some(clock.clock_type) && next.clock_type
                == clock.clock_type.successor() && next.duration == next.clock_type.span()
        }),
{
}

} // verus!
