//! Differential drive mixing: from a movement intent to a signed speed for
//! each track. Purely numeric; the drive task turns the speeds into motor
//! commands.

use vstd::prelude::*;

verus! {

/// `v` held to the range of a track speed, [-100, 100].
pub open spec fn clamp_speed(v: int) -> int {
    if v < -100 {
        -100
    } else if v > 100 {
        100
    } else {
        v
    }
}

/// Track speeds (left, right) for turn intent `x` and drive intent `y`:
/// driving is common to both tracks, turning is their difference.
pub open spec fn mix_spec(x: i8, y: i8) -> (int, int) {
    (clamp_speed(y + x), clamp_speed(y - x))
}

/// Track speeds (left, right) for rotating in place: equal magnitude,
/// opposite direction.
pub open spec fn spin_spec(speed: i8) -> (int, int) {
    (clamp_speed(speed as int), -clamp_speed(speed as int))
}

/// Holds a value to the range of a track speed.
pub fn clamp_to_speed(v: i16) -> (speed: i8)
    ensures
        speed == clamp_speed(v as int),
{
    if v < -100 {
        -100
    } else if v > 100 {
        100
    } else {
        v as i8
    }
}

/// Mixes a movement intent into the speeds of the left and the right track.
pub fn mix(x: i8, y: i8) -> (sides: (i8, i8))
    ensures
        sides.0 == mix_spec(x, y).0,
        sides.1 == mix_spec(x, y).1,
        -100 <= sides.0 <= 100,
        -100 <= sides.1 <= 100,
{
    let forward: i16 = y as i16;
    let turn: i16 = x as i16;
    (clamp_to_speed(forward + turn), clamp_to_speed(forward - turn))
}

/// Speeds of the left and the right track for rotating in place.
pub fn spin(speed: i8) -> (sides: (i8, i8))
    ensures
        sides.0 == spin_spec(speed).0,
        sides.1 == spin_spec(speed).1,
        -100 <= sides.0 <= 100,
        sides.1 == -sides.0,
{
    let left: i8 = clamp_to_speed(speed as i16);
    (left, -left)
}

/// Where neither sum leaves [-100, 100], mixing is plain addition and
/// subtraction, and for intents in [-100, 100] it never leaves that range.
pub proof fn mix_facts(x: i8, y: i8)
    ensures
        -100 <= y + x <= 100 ==> mix_spec(x, y).0 == y + x,
        -100 <= y - x <= 100 ==> mix_spec(x, y).1 == y - x,
        -100 <= mix_spec(x, y).0 <= 100,
        -100 <= mix_spec(x, y).1 <= 100,
{
}

/// For a speed in [-100, 100], spinning runs the left track at `speed` and
/// the right track at `-speed`.
pub proof fn spin_facts(speed: i8)
    requires
        -100 <= speed <= 100,
    ensures
        spin_spec(speed) == (speed as int, -speed),
{
}

} // verus!
