//! Gamepad input: the sample of one poll, the button table, stick
//! normalization and the feedback (rumble) mapping.

use vstd::prelude::*;
use vstd::arithmetic::div_mod::lemma_div_is_ordered;

use crate::config::{
    CONTROLLER_TIMEOUT_MS, CONTROL_LOOP_PERIOD_MS, RUMBLE_MAX_DIVISOR, RUMBLE_MAX_SUBTRACT,
    RUMBLE_THRESHOLD,
};

verus! {

/// One poll of the gamepad: four stick axes (128 is the center), two trigger
/// pressures and the raw button word.
#[derive(Clone, Copy, Debug, PartialEq, Eq, Structural)]
pub struct ControllerData {
    pub left_stick_x: u8,
    pub left_stick_y: u8,
    pub right_stick_x: u8,
    pub right_stick_y: u8,
    pub l2_pressure: u8,
    pub r2_pressure: u8,
    pub buttons: u16,
}

/// Stick value for a raw axis byte, as a mathematical integer.
///
/// Below the dead zone the distance to its lower edge is scaled so that raw 0
/// gives -100; above it the distance to its upper edge is scaled so that raw
/// 255 gives +100; inside it the value is 0. Both quotients round toward zero.
pub open spec fn normalize_spec(raw: u8, deadzone_lo: u8, deadzone_hi: u8) -> int {
    if raw < deadzone_lo {
        -(((deadzone_lo - raw) * 100) / (deadzone_lo as int))
    } else if raw > deadzone_hi {
        ((raw - deadzone_hi) * 100) / (255 - deadzone_hi)
    } else {
        0
    }
}

/// Turns a raw axis byte into a signed control value in [-100, 100].
pub fn normalize(raw: u8, deadzone_lo: u8, deadzone_hi: u8) -> (value: i8)
    ensures
        value == normalize_spec(raw, deadzone_lo, deadzone_hi),
        -100 <= value <= 100,
{
    if raw < deadzone_lo {
        let span: u16 = deadzone_lo as u16;
        let below: u16 = (deadzone_lo - raw) as u16;
        assert(below * 100 / (span as int) <= 100) by (nonlinear_arith)
            requires
                0 < below <= span,
        ;
        let magnitude: u16 = below * 100 / span;
        -(magnitude as i8)
    } else if raw > deadzone_hi {
        let span: u16 = (255 - deadzone_hi) as u16;
        let above: u16 = (raw - deadzone_hi) as u16;
        assert(above * 100 / (span as int) <= 100) by (nonlinear_arith)
            requires
                0 < above <= span,
        ;
        let magnitude: u16 = above * 100 / span;
        magnitude as i8
    } else {
        0
    }
}

/// Whatever the dead zone, the value lies in [-100, 100], with the sign of
/// the side of the dead zone that the raw value is on.
pub proof fn normalize_in_range(raw: u8, deadzone_lo: u8, deadzone_hi: u8)
    ensures
        -100 <= normalize_spec(raw, deadzone_lo, deadzone_hi) <= 100,
        raw < deadzone_lo ==> normalize_spec(raw, deadzone_lo, deadzone_hi) <= 0,
        raw >= deadzone_lo ==> normalize_spec(raw, deadzone_lo, deadzone_hi) >= 0,
{
    let lo: int = deadzone_lo as int;
    let span_hi: int = 255 - deadzone_hi;
    if raw < deadzone_lo {
        lemma_div_is_ordered(0, (lo - raw) * 100, lo);
        lemma_div_is_ordered((lo - raw) * 100, lo * 100, lo);
        assert(lo * 100 / lo == 100) by (nonlinear_arith)
            requires
                lo > 0,
        ;
    } else if raw > deadzone_hi {
        lemma_div_is_ordered(0, (raw - deadzone_hi) * 100, span_hi);
        lemma_div_is_ordered((raw - deadzone_hi) * 100, span_hi * 100, span_hi);
        assert(span_hi * 100 / span_hi == 100) by (nonlinear_arith)
            requires
                span_hi > 0,
        ;
    }
}

/// `normalize` never decreases when the raw value grows, whatever the dead zone.
pub proof fn normalize_monotonic(a: u8, b: u8, deadzone_lo: u8, deadzone_hi: u8)
    requires
        a <= b,
    ensures
        normalize_spec(a, deadzone_lo, deadzone_hi) <= normalize_spec(b, deadzone_lo, deadzone_hi),
{
    let lo: int = deadzone_lo as int;
    let span_hi: int = 255 - deadzone_hi;
    if a < deadzone_lo {
        lemma_div_is_ordered(0, (lo - a) * 100, lo);
        if b < deadzone_lo {
            lemma_div_is_ordered((lo - b) * 100, (lo - a) * 100, lo);
        } else if b > deadzone_hi {
            lemma_div_is_ordered(0, (b - deadzone_hi) * 100, span_hi);
        }
    } else if a > deadzone_hi {
        lemma_div_is_ordered((a - deadzone_hi) * 100, (b - deadzone_hi) * 100, span_hi);
    } else if b > deadzone_hi {
        lemma_div_is_ordered(0, (b - deadzone_hi) * 100, span_hi);
    }
}

/// With a dead zone that leaves both ends of the axis outside, the ends of the
/// axis give exactly -100 and +100.
pub proof fn normalize_endpoints(deadzone_lo: u8, deadzone_hi: u8)
    requires
        0 < deadzone_lo,
        deadzone_hi < 255,
    ensures
        normalize_spec(0, deadzone_lo, deadzone_hi) == -100,
        normalize_spec(255, deadzone_lo, deadzone_hi) == 100,
{
    let lo: int = deadzone_lo as int;
    let span_hi: int = 255 - deadzone_hi;
    assert(lo * 100 / lo == 100) by (nonlinear_arith)
        requires
            lo > 0,
    ;
    assert(span_hi * 100 / span_hi == 100) by (nonlinear_arith)
        requires
            span_hi > 0,
    ;
}

/// Every raw value inside the dead zone, its two edges included, gives 0.
pub proof fn normalize_dead_zone(raw: u8, deadzone_lo: u8, deadzone_hi: u8)
    requires
        deadzone_lo <= raw <= deadzone_hi,
    ensures
        normalize_spec(raw, deadzone_lo, deadzone_hi) == 0,
{
}

/// Feedback intensity for a trigger pressure, as a mathematical integer.
///
/// Below `threshold` it is 0. From `threshold` on, `max_subtract` is taken off
/// the pressure (stopping at 0), the rest is scaled by 255 / `divisor`, and
/// the low eight bits of the quotient are kept.
pub open spec fn rumble_spec(pressure: u8, threshold: u8, max_subtract: u8, divisor: u16) -> int {
    if pressure < threshold {
        0
    } else {
        let reduced: int = if pressure > max_subtract {
            pressure - max_subtract
        } else {
            0
        };
        ((reduced * 255) / (divisor as int)) % 256
    }
}

/// Maps a trigger pressure to the intensity of the large feedback motor.
pub fn rumble(pressure: u8, threshold: u8, max_subtract: u8, divisor: u16) -> (intensity: u8)
    requires
        divisor > 0,
    ensures
        intensity == rumble_spec(pressure, threshold, max_subtract, divisor),
{
    if pressure < threshold {
        0
    } else {
        let reduced: u16 = pressure.saturating_sub(max_subtract) as u16;
        let scaled: u16 = reduced * 255 / divisor;
        (scaled % 256) as u8
    }
}

/// Setting of the two feedback motors of the gamepad, sent with the next poll.
#[derive(Clone, Copy, Debug, PartialEq, Eq, Structural)]
pub struct Feedback {
    /// The small motor only runs or rests.
    pub small_motor: bool,
    /// Intensity of the large motor.
    pub big_motor: u8,
}

impl Feedback {
    /// Both motors at rest.
    pub open spec fn off() -> Feedback {
        Feedback { small_motor: false, big_motor: 0 }
    }

    /// The feedback that a sample asks for: the left trigger switches the
    /// small motor, the right trigger sets the large one. Neither reads the
    /// other's pressure.
    pub open spec fn of(data: ControllerData) -> Feedback {
        Feedback {
            small_motor: data.l2_pressure > RUMBLE_THRESHOLD,
            big_motor: rumble_spec(
                data.r2_pressure,
                RUMBLE_THRESHOLD,
                RUMBLE_MAX_SUBTRACT,
                RUMBLE_MAX_DIVISOR,
            ) as u8,
        }
    }

    /// Both motors at rest.
    pub fn silent() -> (feedback: Feedback)
        ensures
            feedback == Feedback::off(),
    {
        Feedback { small_motor: false, big_motor: 0 }
    }

    /// Derives the feedback from the trigger pressures of a sample.
    pub fn from_sample(data: &ControllerData) -> (feedback: Feedback)
        ensures
            feedback == Feedback::of(*data),
    {
        Feedback {
            small_motor: data.l2_pressure > RUMBLE_THRESHOLD,
            big_motor: rumble(
                data.r2_pressure,
                RUMBLE_THRESHOLD,
                RUMBLE_MAX_SUBTRACT,
                RUMBLE_MAX_DIVISOR,
            ),
        }
    }
}

/// Bit of each button in the button word. A button is held while its bit is 0.
pub const BUTTON_SELECT: u16 = 0x0001;

pub const BUTTON_L3: u16 = 0x0002;

pub const BUTTON_R3: u16 = 0x0004;

pub const BUTTON_START: u16 = 0x0008;

pub const BUTTON_UP: u16 = 0x0010;

pub const BUTTON_RIGHT: u16 = 0x0020;

pub const BUTTON_DOWN: u16 = 0x0040;

pub const BUTTON_LEFT: u16 = 0x0080;

pub const BUTTON_L2: u16 = 0x0100;

pub const BUTTON_R2: u16 = 0x0200;

pub const BUTTON_L1: u16 = 0x0400;

pub const BUTTON_R1: u16 = 0x0800;

pub const BUTTON_TRIANGLE: u16 = 0x1000;

pub const BUTTON_CIRCLE: u16 = 0x2000;

pub const BUTTON_CROSS: u16 = 0x4000;

pub const BUTTON_SQUARE: u16 = 0x8000;

/// Button word in which no button is held.
pub const BUTTONS_RELEASED: u16 = 0xffff;

/// The buttons under `mask` are all held in the button word `bits`.
pub open spec fn held(bits: u16, mask: u16) -> bool {
    bits & mask == 0
}

/// Button word of one poll, read through the bit table above.
#[derive(Clone, Copy, Debug, PartialEq, Eq, Structural)]
pub struct Buttons {
    pub bits: u16,
}

impl Buttons {
    /// All buttons under `mask` are held.
    pub fn pressed(&self, mask: u16) -> (down: bool)
        ensures
            down == held(self.bits, mask),
    {
        self.bits & mask == 0
    }

    /// "start" is held.
    pub fn start(&self) -> (down: bool)
        ensures
            down == held(self.bits, BUTTON_START),
    {
        self.pressed(BUTTON_START)
    }

    /// "select" is held.
    pub fn select(&self) -> (down: bool)
        ensures
            down == held(self.bits, BUTTON_SELECT),
    {
        self.pressed(BUTTON_SELECT)
    }

    /// The raw button word.
    pub fn bits(&self) -> (bits: u16)
        ensures
            bits == self.bits,
    {
        self.bits
    }
}

/// Wraps the raw button word of a sample for reading by button name.
pub fn bits_to_buttons(bits: u16) -> (buttons: Buttons)
    ensures
        buttons.bits == bits,
{
    Buttons { bits }
}

/// With every bit set no button is held, with every bit clear all are, and
/// "start" and "select" do not share a bit: each can be held without the other.
pub proof fn button_table_facts()
    ensures
        forall|mask: u16| mask != 0 ==> !#[trigger] held(BUTTONS_RELEASED, mask),
        forall|mask: u16| #[trigger] held(0, mask),
        forall|bits: u16|
            held(bits, BUTTON_START | BUTTON_SELECT) <==> #[trigger] held(bits, BUTTON_START)
                && held(bits, BUTTON_SELECT),
        held(!BUTTON_START, BUTTON_START) && !held(!BUTTON_START, BUTTON_SELECT),
        held(!BUTTON_SELECT, BUTTON_SELECT) && !held(!BUTTON_SELECT, BUTTON_START),
{
    assert forall|mask: u16| mask != 0 implies !#[trigger] held(BUTTONS_RELEASED, mask) by {
        assert(mask != 0 ==> 0xffffu16 & mask != 0) by (bit_vector);
    }
    assert forall|mask: u16| #[trigger] held(0, mask) by {
        assert(0u16 & mask == 0) by (bit_vector);
    }
    assert forall|bits: u16|
        held(bits, BUTTON_START | BUTTON_SELECT) <==> #[trigger] held(bits, BUTTON_START) && held(
            bits,
            BUTTON_SELECT,
        ) by {
        assert((bits & (0x0008u16 | 0x0001u16) == 0) <==> (bits & 0x0008u16 == 0 && bits
            & 0x0001u16 == 0)) by (bit_vector);
    }
    assert((!0x0008u16) & 0x0008u16 == 0 && (!0x0008u16) & 0x0001u16 != 0) by (bit_vector);
    assert((!0x0001u16) & 0x0001u16 == 0 && (!0x0001u16) & 0x0008u16 != 0) by (bit_vector);
}

/// How one poll of the input device ended.
#[derive(Clone, Copy, Debug, PartialEq, Eq, Structural)]
pub enum PollOutcome {
    /// The expected gamepad answered with a sample.
    Sample(ControllerData),
    /// The read failed: no safe input is available for this cycle.
    ReadFailure,
    /// Something other than the expected gamepad answered.
    UnexpectedDevice,
}

/// Pause after a polling cycle: the loop period after a sample, the retry
/// timeout after a failed read, none after an unexpected device.
pub open spec fn wait_after(poll: PollOutcome) -> u64 {
    match poll {
        PollOutcome::Sample(_) => CONTROL_LOOP_PERIOD_MS,
        PollOutcome::ReadFailure => CONTROLLER_TIMEOUT_MS,
        PollOutcome::UnexpectedDevice => 0,
    }
}

/// What the reader does after one poll.
#[derive(Clone, Copy, Debug, PartialEq, Eq, Structural)]
pub struct ReaderCycle {
    /// Hand the outcome of the poll on to the decision engine.
    pub forward: bool,
    /// Pulse the link light: the gamepad answered.
    pub signal_led: bool,
    /// Pause before the next poll, in milliseconds.
    pub wait_ms: u64,
}

impl ReaderCycle {
    /// A sample is handed on and shown on the link light; a failed read is
    /// handed on, so that the engine can halt the robot; an unexpected device
    /// is passed over in silence.
    pub open spec fn of(poll: PollOutcome) -> ReaderCycle {
        ReaderCycle {
            forward: !(poll is UnexpectedDevice),
            signal_led: poll is Sample,
            wait_ms: wait_after(poll),
        }
    }
}

/// The feedback to send with the next poll, given the one sent with this poll
/// and how this poll ended: a sample sets it, a failed read silences it, an
/// unexpected device leaves it as it was.
pub open spec fn next_feedback(feedback: Feedback, poll: PollOutcome) -> Feedback {
    match poll {
        PollOutcome::Sample(data) => Feedback::of(data),
        PollOutcome::ReadFailure => Feedback::off(),
        PollOutcome::UnexpectedDevice => feedback,
    }
}

/// One cycle of the gamepad reader: takes the outcome of the poll, updates
/// the feedback for the next poll and says what to do with the outcome.
pub fn ps2_reader_task(feedback: &mut Feedback, poll: &PollOutcome) -> (cycle: ReaderCycle)
    ensures
        cycle == ReaderCycle::of(*poll),
        *final(feedback) == next_feedback(*old(feedback), *poll),
{
    match poll {
        PollOutcome::Sample(data) => {
            *feedback = Feedback::from_sample(data);
            ReaderCycle { forward: true, signal_led: true, wait_ms: CONTROL_LOOP_PERIOD_MS }
        },
        PollOutcome::ReadFailure => {
            *feedback = Feedback::silent();
            ReaderCycle { forward: true, signal_led: false, wait_ms: CONTROLLER_TIMEOUT_MS }
        },
        PollOutcome::UnexpectedDevice => ReaderCycle {
            forward: false,
            signal_led: false,
            wait_ms: 0,
        },
    }
}

} // verus!
