//! Per-entity behaviour: the attacker and defender state machines, their
//! frame-in-state counters, facing direction and the capability predicates
//! that gate movement, jumping and cleaning.
use vstd::prelude::*;
use crate::contacts::{ContactRecord, grounded};
use crate::input::AttackerControls;

verus! {

/// Frames that an attacker stays in `Land` before it may go idle.
pub const LAND_FRAMES: usize = 3;
/// Frames that an attacker stays stunned after a cake hit.
pub const STUN_FRAMES: usize = 60;
/// Simulation frames that each sprite of an animation is shown for.
pub const FRAMES_PER_SPRITE: usize = 10;

/// Which way a character looks; drives the sprite's horizontal flip.
#[derive(Clone, Copy, Debug, PartialEq, Eq, Structural)]
pub enum FacingDirection {
    Left,
    Right,
}

impl Default for FacingDirection {
    fn default() -> (r: Self)
        ensures
            r == FacingDirection::Right,
    {
        FacingDirection::Right
    }
}

/// The vertical velocity of a body measured against the idle threshold ε:
/// below -ε, above +ε, or within [-ε, ε].
#[derive(Clone, Copy, Debug, PartialEq, Eq, Structural)]
pub enum VerticalMotion {
    Falling,
    Rising,
    Level,
}

/// An attacker's state, with the number of frames it has been in it.
#[derive(Clone, Copy, Debug, PartialEq, Eq, Structural)]
pub enum AttackerState {
    Idle(usize),
    Jump(usize),
    Fall(usize),
    Land(usize),
    Walk(usize),
    Hit(usize),
}

/// The defender's state, with the number of frames it has been in it.
#[derive(Clone, Copy, Debug, PartialEq, Eq, Structural)]
pub enum DefenderState {
    Idle(usize),
    Fire(usize),
}

/// A frame counter one frame later; it stops at `usize::MAX`.
pub open spec fn bump(f: usize) -> usize {
    if f < usize::MAX {
        (f + 1) as usize
    } else {
        f
    }
}

fn next_frame(f: usize) -> (r: usize)
    ensures
        r == bump(f),
{
    if f < usize::MAX {
        f + 1
    } else {
        f
    }
}

/// The facing direction after a frame with horizontal intent `horizontal`:
/// a leftward intent turns left, a rightward one turns right, none keeps it.
pub open spec fn facing_after(face: FacingDirection, horizontal: i8) -> FacingDirection {
    if horizontal > 0 {
        FacingDirection::Right
    } else if horizontal < 0 {
        FacingDirection::Left
    } else {
        face
    }
}

/// Updates the facing direction from this frame's horizontal intent.
pub fn update_facing(face: FacingDirection, horizontal: i8) -> (r: FacingDirection)
    ensures
        r == facing_after(face, horizontal),
{
    let mut r = face;
    if horizontal < 0 {
        r = FacingDirection::Left;
    }
    if horizontal > 0 {
        r = FacingDirection::Right;
    }
    r
}

impl AttackerState {
    pub open spec fn frame(self) -> usize {
        match self {
            AttackerState::Idle(f) => f,
            AttackerState::Jump(f) => f,
            AttackerState::Fall(f) => f,
            AttackerState::Land(f) => f,
            AttackerState::Walk(f) => f,
            AttackerState::Hit(f) => f,
        }
    }

    /// Every state but `Hit` lets the attacker walk.
    pub fn can_walk(&self) -> (r: bool)
        ensures
            r == !(*self is Hit),
    {
        match self {
            AttackerState::Hit(..) => false,
            _ => true,
        }
    }

    pub fn is_stunned(&self) -> (r: bool)
        ensures
            r == (*self is Hit),
    {
        match self {
            AttackerState::Hit(..) => true,
            _ => false,
        }
    }

    /// Only a standing attacker (idle, walking or landing) cleans splats.
    pub fn can_clean(&self) -> (r: bool)
        ensures
            r == (*self is Idle || *self is Walk || *self is Land),
    {
        match self {
            AttackerState::Idle(..) | AttackerState::Walk(..) | AttackerState::Land(..) => true,
            _ => false,
        }
    }

    /// Only an idle or walking attacker may start a jump.
    pub fn can_jump(&self) -> (r: bool)
        ensures
            r == (*self is Idle || *self is Walk),
    {
        match self {
            AttackerState::Idle(..) | AttackerState::Walk(..) => true,
            _ => false,
        }
    }

    /// The number of frames spent in the current state.
    pub fn get_frame(&self) -> (r: usize)
        ensures
            r == self.frame(),
    {
        match self {
            AttackerState::Idle(f) => *f,
            AttackerState::Jump(f) => *f,
            AttackerState::Fall(f) => *f,
            AttackerState::Land(f) => *f,
            AttackerState::Walk(f) => *f,
            AttackerState::Hit(f) => *f,
        }
    }
}

impl Default for AttackerState {
    fn default() -> (r: Self)
        ensures
            r == AttackerState::Idle(0),
    {
        AttackerState::Idle(0)
    }
}

impl DefenderState {
    pub open spec fn frame(self) -> usize {
        match self {
            DefenderState::Idle(f) => f,
            DefenderState::Fire(f) => f,
        }
    }

    /// The number of frames spent in the current state.
    pub fn get_frame(&self) -> (r: usize)
        ensures
            r == self.frame(),
    {
        match self {
            DefenderState::Idle(f) => *f,
            DefenderState::Fire(f) => *f,
        }
    }
}

impl Default for DefenderState {
    fn default() -> (r: Self)
        ensures
            r == DefenderState::Idle(0),
    {
        DefenderState::Idle(0)
    }
}

/// The attacker's state one frame later, given its vertical motion, its
/// horizontal intent and whether it touched ground this frame.
pub open spec fn attacker_next(
    state: AttackerState,
    motion: VerticalMotion,
    horizontal: i8,
    on_ground: bool,
) -> AttackerState {
    match state {
        AttackerState::Idle(f) => {
            if motion == VerticalMotion::Falling {
                AttackerState::Fall(0)
            } else if motion == VerticalMotion::Rising {
                AttackerState::Jump(0)
            } else if horizontal != 0 {
                AttackerState::Walk(0)
            } else {
                AttackerState::Idle(bump(f))
            }
        },
        AttackerState::Jump(f) => {
            if motion != VerticalMotion::Rising {
                AttackerState::Fall(0)
            } else {
                AttackerState::Jump(bump(f))
            }
        },
        AttackerState::Fall(f) => {
            if on_ground {
                AttackerState::Land(0)
            } else {
                AttackerState::Fall(bump(f))
            }
        },
        AttackerState::Land(f) => {
            if motion == VerticalMotion::Falling {
                AttackerState::Fall(0)
            } else if f > LAND_FRAMES {
                AttackerState::Idle(0)
            } else {
                AttackerState::Land(bump(f))
            }
        },
        AttackerState::Walk(f) => {
            if motion == VerticalMotion::Falling {
                AttackerState::Fall(0)
            } else if motion == VerticalMotion::Rising {
                AttackerState::Jump(0)
            } else if horizontal == 0 {
                AttackerState::Idle(0)
            } else {
                AttackerState::Walk(bump(f))
            }
        },
        AttackerState::Hit(f) => {
            if f > STUN_FRAMES {
                AttackerState::Idle(0)
            } else {
                AttackerState::Hit(bump(f))
            }
        },
    }
}

/// Advances one attacker's state machine by one frame.
pub fn next_attacker_state(
    state: AttackerState,
    motion: VerticalMotion,
    horizontal: i8,
    on_ground: bool,
) -> (r: AttackerState)
    ensures
        r == attacker_next(state, motion, horizontal, on_ground),
{
    match state {
        AttackerState::Idle(f) => {
            if motion == VerticalMotion::Falling {
                AttackerState::Fall(0)
            } else if motion == VerticalMotion::Rising {
                AttackerState::Jump(0)
            } else if horizontal != 0 {
                AttackerState::Walk(0)
            } else {
                AttackerState::Idle(next_frame(f))
            }
        },
        AttackerState::Jump(f) => {
            if motion != VerticalMotion::Rising {
                AttackerState::Fall(0)
            } else {
                AttackerState::Jump(next_frame(f))
            }
        },
        AttackerState::Fall(f) => {
            if on_ground {
                AttackerState::Land(0)
            } else {
                AttackerState::Fall(next_frame(f))
            }
        },
        AttackerState::Land(f) => {
            if motion == VerticalMotion::Falling {
                AttackerState::Fall(0)
            } else if f > LAND_FRAMES {
                AttackerState::Idle(0)
            } else {
                AttackerState::Land(next_frame(f))
            }
        },
        AttackerState::Walk(f) => {
            if motion == VerticalMotion::Falling {
                AttackerState::Fall(0)
            } else if motion == VerticalMotion::Rising {
                AttackerState::Jump(0)
            } else if horizontal == 0 {
                AttackerState::Idle(0)
            } else {
                AttackerState::Walk(next_frame(f))
            }
        },
        AttackerState::Hit(f) => {
            if f > STUN_FRAMES {
                AttackerState::Idle(0)
            } else {
                AttackerState::Hit(next_frame(f))
            }
        },
    }
}

/// Advances one attacker's state machine by one frame. Ground contact is
/// read from this frame's contact buffers: a static contact whose normal
/// points down from the attacker, or a dynamic one whose normal points down
/// from the attacker towards the other body.
pub fn update_attacker_state(
    id: usize,
    state: AttackerState,
    motion: VerticalMotion,
    horizontal: i8,
    contacts: &Vec<ContactRecord>,
    static_contacts: &Vec<ContactRecord>,
) -> (r: AttackerState)
    ensures
        r == attacker_next(state, motion, horizontal, grounded(id, contacts@, static_contacts@)),
{
    let on_ground = crate::contacts::is_grounded(id, contacts, static_contacts);
    next_attacker_state(state, motion, horizontal, on_ground)
}

/// A rising attacker that stands idle starts a jump, with a fresh counter,
/// however long it had been idle.
pub proof fn lemma_idle_rising_jumps(f: usize, horizontal: i8, on_ground: bool)
    ensures
        attacker_next(AttackerState::Idle(f), VerticalMotion::Rising, horizontal, on_ground)
            == AttackerState::Jump(0),
{
}

/// The defender's state one frame later, and whether a cake leaves this frame.
/// The fire animation has four sprites; the cake leaves once two have played.
pub open spec fn defender_next(state: DefenderState, fire: bool) -> (DefenderState, bool) {
    match state {
        DefenderState::Idle(f) => {
            if fire {
                (DefenderState::Fire(0), false)
            } else {
                (DefenderState::Idle(bump(f)), false)
            }
        },
        DefenderState::Fire(f) => {
            if f >= FRAMES_PER_SPRITE * 4 {
                (DefenderState::Idle(0), false)
            } else {
                (DefenderState::Fire(bump(f)), f == FRAMES_PER_SPRITE * 2)
            }
        },
    }
}

/// Advances the defender's state machine by one frame; the flag tells
/// whether a cake is to be shot this frame.
pub fn update_defender_state(state: DefenderState, fire: bool) -> (r: (DefenderState, bool))
    ensures
        r == defender_next(state, fire),
{
    match state {
        DefenderState::Idle(f) => {
            if fire {
                (DefenderState::Fire(0), false)
            } else {
                (DefenderState::Idle(next_frame(f)), false)
            }
        },
        DefenderState::Fire(f) => {
            if f >= FRAMES_PER_SPRITE * 4 {
                (DefenderState::Idle(0), false)
            } else {
                let should_shoot = f == FRAMES_PER_SPRITE * 2;
                (DefenderState::Fire(next_frame(f)), should_shoot)
            }
        },
    }
}

/// What an attacker's controls make of its velocity this frame: the factor
/// of the walking speed that replaces its horizontal velocity, and whether
/// it leaves the ground with the jump velocity (scaled by `jump`).
#[derive(Clone, Copy, Debug, PartialEq, Eq, Structural)]
pub struct MoveIntent {
    pub walk: i8,
    pub jump: Option<i8>,
}

/// Movement allowed by the attacker's state: no walking while stunned, and
/// a jump only on an upward intent from `Idle` or `Walk`.
pub fn movement_intent(state: AttackerState, controls: AttackerControls) -> (r: MoveIntent)
    ensures
        r.walk == if state is Hit { 0 } else { controls.horizontal },
        r.jump == if controls.vertical > 0 && (state is Idle || state is Walk) {
            Some(controls.vertical)
        } else {
            None::<i8>
        },
{
    let walk = if state.can_walk() { controls.horizontal } else { 0 };
    let jump = if controls.vertical > 0 && state.can_jump() { Some(controls.vertical) } else { None };
    MoveIntent { walk, jump }
}

/// The sprite of an animation with `sprite_count` sprites shown after
/// `frame` frames in a state.
pub fn sprite_index(frame: usize, sprite_count: usize) -> (r: usize)
    requires
        sprite_count > 0,
    ensures
        r == (frame / FRAMES_PER_SPRITE) % sprite_count,
        r < sprite_count,
{
    (frame / FRAMES_PER_SPRITE) % sprite_count
}

/// Sprites are mirrored when the character looks left.
pub fn flip_x(face: FacingDirection) -> (r: bool)
    ensures
        r == (face == FacingDirection::Left),
{
    match face {
        FacingDirection::Left => true,
        FacingDirection::Right => false,
    }
}

} // verus!
