//! Per-player input: the transmitted bitmask, its connection status, and the
//! control intents decoded from it.
use vstd::prelude::*;

verus! {

pub const INPUT_UP: u8 = 1;
pub const INPUT_DOWN: u8 = 2;
pub const INPUT_LEFT: u8 = 4;
pub const INPUT_RIGHT: u8 = 8;
pub const INPUT_ACT: u8 = 16;

/// One player's transmitted input for one frame
/// (bit 0 up, bit 1 down, bit 2 left, bit 3 right, bit 4 action).
#[derive(Clone, Copy, Debug, PartialEq, Eq, Structural)]
pub struct Input {
    pub inp: u8,
}

/// How the session layer obtained a player's input for a frame.
#[derive(Clone, Copy, Debug, PartialEq, Eq, Structural)]
pub enum InputStatus {
    Confirmed,
    Predicted,
    Disconnected,
}

/// Continuous intents of an attacker, each -1, 0 or +1 (right and up positive).
#[derive(Clone, Copy, Debug, PartialEq, Eq, Structural, Default)]
pub struct AttackerControls {
    pub vertical: i8,
    pub horizontal: i8,
}

/// Continuous intents of the defender, each -1, 0 or +1, and the fire button.
#[derive(Clone, Copy, Debug, PartialEq, Eq, Structural, Default)]
pub struct DefenderControls {
    pub vertical: i8,
    pub horizontal: i8,
    pub fire: bool,
}

/// Whether `bit` is set in `mask`.
pub open spec fn pressed(mask: u8, bit: u8) -> bool {
    mask & bit != 0
}

/// The mask that the controls are decoded from: a disconnected player is neutral.
pub open spec fn effective_mask(input: Input, status: InputStatus) -> u8 {
    match status {
        InputStatus::Disconnected => 0,
        _ => input.inp,
    }
}

/// -1 when only the negative button is held, +1 when only the positive one is, else 0.
pub open spec fn axis(negative: bool, positive: bool) -> i8 {
    if negative && !positive {
        -1i8
    } else if !negative && positive {
        1i8
    } else {
        0i8
    }
}

pub open spec fn horizontal_of(mask: u8) -> i8 {
    axis(pressed(mask, INPUT_LEFT), pressed(mask, INPUT_RIGHT))
}

pub open spec fn vertical_of(mask: u8) -> i8 {
    axis(pressed(mask, INPUT_DOWN), pressed(mask, INPUT_UP))
}

/// The bitmask that a frame's controls are decoded from.
pub fn effective_input(input: Input, status: InputStatus) -> (r: u8)
    ensures
        r == effective_mask(input, status),
{
    match status {
        InputStatus::Confirmed => input.inp,
        InputStatus::Predicted => input.inp,
        InputStatus::Disconnected => 0,
    }
}

fn axis_intent(negative: bool, positive: bool) -> (r: i8)
    ensures
        r == axis(negative, positive),
{
    if negative && !positive {
        -1
    } else if !negative && positive {
        1
    } else {
        0
    }
}

/// Decodes an attacker's intents from its input of this frame.
pub fn apply_attacker_inputs(input: Input, status: InputStatus) -> (r: AttackerControls)
    ensures
        r.horizontal == horizontal_of(effective_mask(input, status)),
        r.vertical == vertical_of(effective_mask(input, status)),
{
    let mask = effective_input(input, status);
    AttackerControls {
        horizontal: axis_intent(mask & INPUT_LEFT != 0, mask & INPUT_RIGHT != 0),
        vertical: axis_intent(mask & INPUT_DOWN != 0, mask & INPUT_UP != 0),
    }
}

/// Decodes the defender's intents and fire button from its input of this frame.
pub fn apply_defender_inputs(input: Input, status: InputStatus) -> (r: DefenderControls)
    ensures
        r.horizontal == horizontal_of(effective_mask(input, status)),
        r.vertical == vertical_of(effective_mask(input, status)),
        r.fire == pressed(effective_mask(input, status), INPUT_ACT),
{
    let mask = effective_input(input, status);
    DefenderControls {
        horizontal: axis_intent(mask & INPUT_LEFT != 0, mask & INPUT_RIGHT != 0),
        vertical: axis_intent(mask & INPUT_DOWN != 0, mask & INPUT_UP != 0),
        fire: mask & INPUT_ACT != 0,
    }
}

/// A disconnected player has no intent: whatever bits were transmitted, both
/// axes decode to zero and the fire button reads as released.
pub proof fn lemma_disconnected_is_neutral(input: Input)
    ensures
        horizontal_of(effective_mask(input, InputStatus::Disconnected)) == 0,
        vertical_of(effective_mask(input, InputStatus::Disconnected)) == 0,
        !pressed(effective_mask(input, InputStatus::Disconnected), INPUT_ACT),
{
    assert(0u8 & 4u8 == 0 && 0u8 & 8u8 == 0 && 0u8 & 2u8 == 0 && 0u8 & 1u8 == 0
        && 0u8 & 16u8 == 0) by (bit_vector);
}

} // verus!
