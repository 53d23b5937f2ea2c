use vstd::prelude::*;

use crate::tone::{Brightness, ToneCurve};

verus! {

/// Whether a gradient byte counts as brightening to the right: one of its two
/// highest bits is set.
pub open spec fn rightward(gradient: u8) -> bool {
    gradient >> 6 > 0
}

/// The direction is read off the two highest bits and nothing else.
pub proof fn lemma_rightward_top_bits(a: u8, b: u8)
    requires
        a >> 6 == b >> 6,
    ensures
        rightward(a) == rightward(b),
{
}

/// The gradients that count as rightward are those from 64 up.
pub proof fn lemma_rightward_threshold(gradient: u8)
    ensures
        rightward(gradient) <==> gradient >= 64,
{
    assert((gradient >> 6 > 0) <==> gradient >= 64) by (bit_vector);
}

/// With both high bits set (192 to 255) a gradient is rightward, and with
/// both clear (0 to 63) it is not.
pub proof fn lemma_rightward_outer_ranges(gradient: u8)
    requires
        gradient <= 63 || gradient >= 192,
    ensures
        rightward(gradient) <==> gradient >= 192,
{
    lemma_rightward_threshold(gradient);
}

/// Whether a gradient byte counts as brightening to the right.
pub fn is_rightward(gradient: u8) -> (r: bool)
    ensures
        r == rightward(gradient),
        r <==> gradient >= 64,
{
    proof {
        lemma_rightward_threshold(gradient);
    }
    (gradient >> 6) > 0
}

/// The place in the moon cycle (0 new, 4 full, 8 would be new again) for a
/// brightness and a direction.  Rightward cells take the waxing half, the
/// others the waning half; at the darkest and the brightest level both
/// directions meet.
pub open spec fn phase_index(brightness: Brightness, rightward: bool) -> nat {
    match brightness {
        Brightness::Zero => 0,
        Brightness::One => if rightward { 1 } else { 7 },
        Brightness::Two => if rightward { 2 } else { 6 },
        Brightness::Three => if rightward { 3 } else { 5 },
        Brightness::Bright => 4,
    }
}

/// The two directions mirror each other in the cycle of eight: a waning moon
/// stands as far before the next new moon as its waxing twin stands after
/// the last one.  At the darkest and the brightest level the two are the
/// same moon.
pub proof fn lemma_phase_mirror(brightness: Brightness)
    ensures
        phase_index(brightness, true) == brightness.spec_level(),
        phase_index(brightness, false) == (8 - brightness.spec_level()) % 8,
        phase_index(brightness, true) == phase_index(brightness, false) <==> (brightness
            == Brightness::Zero || brightness == Brightness::Bright),
{
}

/// The emoji of a place in the moon cycle.
pub open spec fn moon_char(index: nat) -> char {
    if index == 0 {
        '\u{1F311}'
    } else if index == 1 {
        '\u{1F312}'
    } else if index == 2 {
        '\u{1F313}'
    } else if index == 3 {
        '\u{1F314}'
    } else if index == 4 {
        '\u{1F315}'
    } else if index == 5 {
        '\u{1F316}'
    } else if index == 6 {
        '\u{1F317}'
    } else {
        '\u{1F318}'
    }
}

/// The glyph of a cell: its luma is put on the curve and saturated to a
/// level, its gradient gives the direction, and the two pick the moon.
pub open spec fn glyph_of(curve: Seq<u8>, luma: u8, gradient: u8) -> char {
    moon_char(phase_index(ToneCurve::brightness_on(curve, luma), rightward(gradient)))
}

/// The place in the moon cycle for a brightness and a direction.
pub fn phase(brightness: Brightness, rightward: bool) -> (index: u8)
    ensures
        index == phase_index(brightness, rightward),
        index < 8,
{
    match (brightness, rightward) {
        (Brightness::Zero, _) => 0,
        (Brightness::One, true) => 1,
        (Brightness::Two, true) => 2,
        (Brightness::Three, true) => 3,
        (Brightness::Bright, _) => 4,
        (Brightness::Three, false) => 5,
        (Brightness::Two, false) => 6,
        (Brightness::One, false) => 7,
    }
}

/// The emoji of a place in the moon cycle, as a string of one character.
pub fn moon(index: u8) -> (text: &'static str)
    requires
        index < 8,
    ensures
        text@ == seq![moon_char(index as nat)],
{
    proof {
        reveal_strlit("\u{1F311}");
        reveal_strlit("\u{1F312}");
        reveal_strlit("\u{1F313}");
        reveal_strlit("\u{1F314}");
        reveal_strlit("\u{1F315}");
        reveal_strlit("\u{1F316}");
        reveal_strlit("\u{1F317}");
        reveal_strlit("\u{1F318}");
    }
    let text = match index {
        0 => "\u{1F311}",
        1 => "\u{1F312}",
        2 => "\u{1F313}",
        3 => "\u{1F314}",
        4 => "\u{1F315}",
        5 => "\u{1F316}",
        6 => "\u{1F317}",
        _ => "\u{1F318}",
    };
    assert(text@ =~= seq![moon_char(index as nat)]);
    text
}

/// The glyph of one cell, as a string of one character.
pub fn select_moon(luma: u8, gradient: u8, curve: &ToneCurve) -> (text: &'static str)
    ensures
        text@ == seq![glyph_of(curve@, luma, gradient)],
{
    let brightness = curve.brightness(luma);
    let rightward_brightness = is_rightward(gradient);
    moon(phase(brightness, rightward_brightness))
}

} // verus!
