//! The ten logical buttons and their signed wire magnitudes.

use vstd::prelude::*;

verus! {

/// One of the ten logical buttons of the virtual device. On the wire each
/// button is bound to a magnitude 1..=10; a positive opcode of that magnitude
/// presses it and a negative one releases it.
#[derive(Clone, Copy, Debug, PartialEq, Eq, Structural)]
pub enum ButtonId {
    A,
    B,
    X,
    Y,
    TL,
    TL2,
    TR,
    TR2,
    Start,
    Select,
}

/// The button bound to a wire magnitude, for magnitudes 1..=10.
pub open spec fn spec_button_of_magnitude(m: int) -> Option<ButtonId> {
    if m == 1 {
        Some(ButtonId::A)
    } else if m == 2 {
        Some(ButtonId::B)
    } else if m == 3 {
        Some(ButtonId::X)
    } else if m == 4 {
        Some(ButtonId::Y)
    } else if m == 5 {
        Some(ButtonId::TL)
    } else if m == 6 {
        Some(ButtonId::TL2)
    } else if m == 7 {
        Some(ButtonId::TR)
    } else if m == 8 {
        Some(ButtonId::TR2)
    } else if m == 9 {
        Some(ButtonId::Start)
    } else if m == 10 {
        Some(ButtonId::Select)
    } else {
        None
    }
}

/// The wire magnitude a button is bound to.
pub open spec fn spec_magnitude(b: ButtonId) -> int {
    match b {
        ButtonId::A => 1,
        ButtonId::B => 2,
        ButtonId::X => 3,
        ButtonId::Y => 4,
        ButtonId::TL => 5,
        ButtonId::TL2 => 6,
        ButtonId::TR => 7,
        ButtonId::TR2 => 8,
        ButtonId::Start => 9,
        ButtonId::Select => 10,
    }
}

/// Looks a button up by its wire magnitude; magnitudes outside 1..=10 match
/// no button.
pub fn button_of_magnitude(m: u8) -> (r: Option<ButtonId>)
    ensures
        r == spec_button_of_magnitude(m as int),
{
    match m {
        1 => Some(ButtonId::A),
        2 => Some(ButtonId::B),
        3 => Some(ButtonId::X),
        4 => Some(ButtonId::Y),
        5 => Some(ButtonId::TL),
        6 => Some(ButtonId::TL2),
        7 => Some(ButtonId::TR),
        8 => Some(ButtonId::TR2),
        9 => Some(ButtonId::Start),
        10 => Some(ButtonId::Select),
        _ => None,
    }
}

/// The wire magnitude of a button, always in 1..=10.
pub fn magnitude_of_button(b: ButtonId) -> (m: u8)
    ensures
        m as int == spec_magnitude(b),
        1 <= m <= 10,
{
    match b {
        ButtonId::A => 1,
        ButtonId::B => 2,
        ButtonId::X => 3,
        ButtonId::Y => 4,
        ButtonId::TL => 5,
        ButtonId::TL2 => 6,
        ButtonId::TR => 7,
        ButtonId::TR2 => 8,
        ButtonId::Start => 9,
        ButtonId::Select => 10,
    }
}

/// The binding between buttons and magnitudes is bidirectional: every button
/// is found again under its own magnitude, and every magnitude in 1..=10
/// names the button whose magnitude it is.
pub proof fn lemma_button_magnitude_round_trip(b: ButtonId, m: int)
    ensures
        spec_button_of_magnitude(spec_magnitude(b)) == Some(b),
        1 <= m <= 10 ==> spec_magnitude(spec_button_of_magnitude(m)->0) == m,
{
}

} // verus!
