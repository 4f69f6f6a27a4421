//! One fixed frame of the match's discrete state: the round lifecycle and
//! the attacker's and defender's behaviour, driven by the players' inputs and
//! by what the physics step observed. Everything a rollback must capture of
//! this state is in `Simulation`.
use vstd::prelude::*;
use crate::behavior::{
    AttackerState, DefenderState, FacingDirection, VerticalMotion, attacker_next, defender_next,
    facing_after, next_attacker_state, update_defender_state, update_facing,
};
use crate::input::{
    AttackerControls, DefenderControls, Input, InputStatus, apply_attacker_inputs,
    apply_defender_inputs, effective_mask, horizontal_of, pressed, vertical_of, INPUT_ACT,
};
use crate::round::{
    FrameCount, RoundState, INTERLUDE_LENGTH, NUM_ROUNDS, ROUND_LENGTH,
};

verus! {

/// The attacker's behaviour state, facing and last decoded controls.
#[derive(Clone, Copy, Debug, PartialEq, Eq, Structural)]
pub struct AttackerSlot {
    pub state: AttackerState,
    pub facing: FacingDirection,
    pub controls: AttackerControls,
}

/// The defender's behaviour state and last decoded controls.
#[derive(Clone, Copy, Debug, PartialEq, Eq, Structural)]
pub struct DefenderSlot {
    pub state: DefenderState,
    pub controls: DefenderControls,
}

/// One player's input for a frame, as the session layer hands it over.
#[derive(Clone, Copy, Debug, PartialEq, Eq, Structural)]
pub struct PlayerInput {
    pub input: Input,
    pub status: InputStatus,
}

/// What one frame brings from outside the discrete state: both players'
/// inputs, and what the physics step found for the attacker (its vertical
/// motion, whether it rests on something, whether a cake struck it).
#[derive(Clone, Copy, Debug, PartialEq, Eq, Structural)]
pub struct FrameEvents {
    pub player0: PlayerInput,
    pub player1: PlayerInput,
    pub attacker_motion: VerticalMotion,
    pub attacker_on_ground: bool,
    pub attacker_struck: bool,
}

/// The discrete, rollback-relevant state of a two-player match.
#[derive(Clone, Copy, Debug, PartialEq, Eq, Structural)]
pub struct Simulation {
    pub round_state: RoundState,
    pub frame_count: FrameCount,
    pub cur_round: u32,
    pub match_over: bool,
    pub attacker: AttackerSlot,
    pub defender: DefenderSlot,
}

/// What the host is to do after a frame besides the discrete step.
#[derive(Clone, Copy, Debug, PartialEq, Eq, Structural)]
pub enum PhaseAction {
    Nothing,
    /// Spawn the world, the attacker, the defender and the crosshair.
    SpawnRound,
    /// Despawn every round-scoped entity; another interlude follows.
    DespawnRound,
    /// Despawn every round-scoped entity; the match is won and over.
    MatchOver,
}

/// The outcome of one frame step.
#[derive(Clone, Copy, Debug, PartialEq, Eq, Structural)]
pub struct FrameReport {
    pub action: PhaseAction,
    /// The defender shoots a cake this frame.
    pub shoot: bool,
}

pub open spec fn fresh_attacker() -> AttackerSlot {
    AttackerSlot {
        state: AttackerState::Idle(0),
        facing: FacingDirection::Right,
        controls: AttackerControls { vertical: 0, horizontal: 0 },
    }
}

pub open spec fn fresh_defender() -> DefenderSlot {
    DefenderSlot {
        state: DefenderState::Idle(0),
        controls: DefenderControls { vertical: 0, horizontal: 0, fire: false },
    }
}

/// The input of player `handle` (0 or 1).
pub open spec fn input_of(ev: FrameEvents, handle: u32) -> PlayerInput {
    if handle == 0 {
        ev.player0
    } else {
        ev.player1
    }
}

/// The state in which every match begins.
pub open spec fn initial() -> Simulation {
    Simulation {
        round_state: RoundState::InterludeStart,
        frame_count: FrameCount { frame: 0 },
        cur_round: 0,
        match_over: false,
        attacker: fresh_attacker(),
        defender: fresh_defender(),
    }
}

/// States the step keeps the match in: the round number names a player
/// until the match is over, and a frame counter that may still be counted
/// up has room to be.
pub open spec fn well_formed(s: Simulation) -> bool {
    &&& s.cur_round <= NUM_ROUNDS
    &&& !s.match_over ==> s.cur_round < NUM_ROUNDS
    &&& (s.round_state != RoundState::InterludeEnd && s.round_state != RoundState::RoundEnd)
        ==> s.frame_count.frame < u32::MAX
}

/// The play of one round frame: behaviour is updated from the previous
/// frame's controls, then this frame's inputs are decoded, then cake hits
/// stun the attacker.
pub open spec fn play(s: Simulation, ev: FrameEvents) -> (AttackerSlot, DefenderSlot) {
    let a = s.attacker;
    let after = attacker_next(a.state, ev.attacker_motion, a.controls.horizontal, ev.attacker_on_ground);
    let att_in = input_of(ev, if s.cur_round == 0 { 1 } else { 0 });
    let def_in = input_of(ev, s.cur_round);
    let att_mask = effective_mask(att_in.input, att_in.status);
    let def_mask = effective_mask(def_in.input, def_in.status);
    (
        AttackerSlot {
            state: if ev.attacker_struck { AttackerState::Hit(0) } else { after },
            facing: facing_after(a.facing, a.controls.horizontal),
            controls: AttackerControls { vertical: vertical_of(att_mask), horizontal: horizontal_of(att_mask) },
        },
        DefenderSlot {
            state: defender_next(s.defender.state, s.defender.controls.fire).0,
            controls: DefenderControls {
                vertical: vertical_of(def_mask),
                horizontal: horizontal_of(def_mask),
                fire: pressed(def_mask, INPUT_ACT),
            },
        },
    )
}

/// The state one frame later. Once the match is over nothing moves.
pub open spec fn sim_next(s: Simulation, ev: FrameEvents) -> Simulation {
    if s.match_over {
        s
    } else {
        match s.round_state {
            RoundState::InterludeStart => Simulation { round_state: RoundState::Interlude, ..s },
            RoundState::Interlude => {
                let f = (s.frame_count.frame + 1) as u32;
                Simulation {
                    frame_count: FrameCount { frame: f },
                    round_state: if f >= INTERLUDE_LENGTH {
                        RoundState::InterludeEnd
                    } else {
                        RoundState::Interlude
                    },
                    ..s
                }
            },
            RoundState::InterludeEnd => Simulation {
                frame_count: FrameCount { frame: 0 },
                round_state: RoundState::RoundStart,
                ..s
            },
            RoundState::RoundStart => Simulation {
                frame_count: FrameCount { frame: 0 },
                round_state: RoundState::Round,
                attacker: fresh_attacker(),
                defender: fresh_defender(),
                ..s
            },
            RoundState::Round => {
                let f = (s.frame_count.frame + 1) as u32;
                Simulation {
                    frame_count: FrameCount { frame: f },
                    round_state: if f >= ROUND_LENGTH {
                        RoundState::RoundEnd
                    } else {
                        RoundState::Round
                    },
                    attacker: play(s, ev).0,
                    defender: play(s, ev).1,
                    ..s
                }
            },
            RoundState::RoundEnd => {
                let c = (s.cur_round + 1) as u32;
                Simulation {
                    frame_count: FrameCount { frame: 0 },
                    cur_round: c,
                    match_over: c >= NUM_ROUNDS,
                    round_state: if c >= NUM_ROUNDS {
                        RoundState::RoundEnd
                    } else {
                        RoundState::InterludeStart
                    },
                    ..s
                }
            },
        }
    }
}

/// The state after the frames of `evs`, in order.
pub open spec fn run(s: Simulation, evs: Seq<FrameEvents>) -> Simulation
    decreases evs.len(),
{
    if evs.len() == 0 {
        s
    } else {
        sim_next(run(s, evs.drop_last()), evs.last())
    }
}

/// The states after each frame of `evs`.
pub open spec fn trace(s: Simulation, evs: Seq<FrameEvents>) -> Seq<Simulation> {
    Seq::new(evs.len(), |i: int| run(s, evs.take(i + 1)))
}

pub proof fn lemma_step_well_formed(s: Simulation, ev: FrameEvents)
    requires
        well_formed(s),
    ensures
        well_formed(sim_next(s, ev)),
{
}

pub proof fn lemma_run_well_formed(s: Simulation, evs: Seq<FrameEvents>)
    requires
        well_formed(s),
    ensures
        well_formed(run(s, evs)),
    decreases evs.len(),
{
    if evs.len() > 0 {
        lemma_run_well_formed(s, evs.drop_last());
    }
}

fn pick_input(ev: &FrameEvents, handle: u32) -> (r: PlayerInput)
    ensures
        r == input_of(*ev, handle),
{
    if handle == 0 {
        ev.player0
    } else {
        ev.player1
    }
}

impl Simulation {
    /// The state in which every match begins.
    pub fn new() -> (r: Simulation)
        ensures
            r == initial(),
            well_formed(r),
    {
        Simulation {
            round_state: RoundState::InterludeStart,
            frame_count: FrameCount { frame: 0 },
            cur_round: 0,
            match_over: false,
            attacker: AttackerSlot {
                state: AttackerState::Idle(0),
                facing: FacingDirection::Right,
                controls: AttackerControls { vertical: 0, horizontal: 0 },
            },
            defender: DefenderSlot {
                state: DefenderState::Idle(0),
                controls: DefenderControls { vertical: 0, horizontal: 0, fire: false },
            },
        }
    }

    /// Runs one fixed frame: the systems of the current phase, in order.
    pub fn step(&mut self, ev: &FrameEvents) -> (r: FrameReport)
        requires
            well_formed(*old(self)),
        ensures
            *final(self) == sim_next(*old(self), *ev),
            well_formed(*final(self)),
            r.shoot == (!old(self).match_over && old(self).round_state == RoundState::Round
                && defender_next(old(self).defender.state, old(self).defender.controls.fire).1),
            r.action == if old(self).match_over {
                PhaseAction::Nothing
            } else {
                match old(self).round_state {
                    RoundState::RoundStart => PhaseAction::SpawnRound,
                    RoundState::RoundEnd => if final(self).match_over {
                        PhaseAction::MatchOver
                    } else {
                        PhaseAction::DespawnRound
                    },
                    _ => PhaseAction::Nothing,
                }
            },
    {
        proof {
            lemma_step_well_formed(*self, *ev);
        }
        if self.match_over {
            return FrameReport { action: PhaseAction::Nothing, shoot: false };
        }
        match self.round_state {
            RoundState::InterludeStart => {
                crate::round::setup_interlude(&mut self.round_state);
                FrameReport { action: PhaseAction::Nothing, shoot: false }
            },
            RoundState::Interlude => {
                crate::round::run_interlude(&mut self.frame_count, &mut self.round_state);
                FrameReport { action: PhaseAction::Nothing, shoot: false }
            },
            RoundState::InterludeEnd => {
                crate::round::cleanup_interlude(&mut self.frame_count, &mut self.round_state);
                FrameReport { action: PhaseAction::Nothing, shoot: false }
            },
            RoundState::RoundStart => {
                self.attacker = AttackerSlot {
                    state: AttackerState::Idle(0),
                    facing: FacingDirection::Right,
                    controls: AttackerControls { vertical: 0, horizontal: 0 },
                };
                self.defender = DefenderSlot {
                    state: DefenderState::Idle(0),
                    controls: DefenderControls { vertical: 0, horizontal: 0, fire: false },
                };
                crate::round::start_round(&mut self.frame_count, &mut self.round_state);
                FrameReport { action: PhaseAction::SpawnRound, shoot: false }
            },
            RoundState::Round => {
                let a = self.attacker;
                let after = next_attacker_state(
                    a.state,
                    ev.attacker_motion,
                    a.controls.horizontal,
                    ev.attacker_on_ground,
                );
                let facing = update_facing(a.facing, a.controls.horizontal);
                let (def_state, shoot) = update_defender_state(
                    self.defender.state,
                    self.defender.controls.fire,
                );
                let attacker_handle: u32 = if self.cur_round == 0 { 1 } else { 0 };
                let att_in = pick_input(ev, attacker_handle);
                let def_in = pick_input(ev, self.cur_round);
                let att_controls = apply_attacker_inputs(att_in.input, att_in.status);
                let def_controls = apply_defender_inputs(def_in.input, def_in.status);
                let state = if ev.attacker_struck { AttackerState::Hit(0) } else { after };
                self.attacker = AttackerSlot { state, facing, controls: att_controls };
                self.defender = DefenderSlot { state: def_state, controls: def_controls };
                crate::round::check_round_end(&mut self.frame_count, &mut self.round_state);
                FrameReport { action: PhaseAction::Nothing, shoot }
            },
            RoundState::RoundEnd => {
                // of the round data, only the round counter is discrete state
                let mut data = crate::round::RoundData { cur_round: self.cur_round, results: Vec::new() };
                let outcome = crate::round::cleanup_round(
                    &mut self.frame_count,
                    &mut self.round_state,
                    &mut data,
                );
                self.cur_round = data.cur_round;
                if outcome == crate::round::RoundEndOutcome::MatchOver {
                    self.match_over = true;
                    FrameReport { action: PhaseAction::MatchOver, shoot: false }
                } else {
                    FrameReport { action: PhaseAction::DespawnRound, shoot: false }
                }
            },
        }
    }
}


impl Simulation {
    /// A copy of the whole discrete state, to roll back to.
    pub fn snapshot(&self) -> (r: Simulation)
        ensures
            r == *self,
    {
        *self
    }

    /// Rolls the state back to `snap`.
    pub fn restore(&mut self, snap: &Simulation)
        ensures
            *final(self) == *snap,
    {
        *self = *snap;
    }

    /// Runs the frames of `evs` in order, returning the state after each.
    pub fn run_frames(&mut self, evs: &Vec<FrameEvents>) -> (r: Vec<Simulation>)
        requires
            well_formed(*old(self)),
        ensures
            r@ == trace(*old(self), evs@),
            *final(self) == run(*old(self), evs@),
            well_formed(*final(self)),
    {
        let ghost start = *self;
        let mut out: Vec<Simulation> = Vec::new();
        let mut i: usize = 0;
        proof {
            assert(evs@.take(0) =~= Seq::<FrameEvents>::empty());
        }
        while i < evs.len()
            invariant
                i <= evs@.len(),
                well_formed(start),
                *self == run(start, evs@.take(i as int)),
                well_formed(*self),
                out@.len() == i,
                forall|j: int| 0 <= j < i ==> #[trigger] out@[j] == run(start, evs@.take(j + 1)),
            decreases evs@.len() - i,
        {
            proof {
                assert(evs@.take(i + 1).drop_last() =~= evs@.take(i as int));
                assert(evs@.take(i + 1).last() == evs@[i as int]);
            }
            self.step(&evs[i]);
            out.push(*self);
            i += 1;
        }
        proof {
            assert(evs@.take(evs@.len() as int) =~= evs@);
            assert(out@ =~= trace(start, evs@));
        }
        out
    }
}

/// Determinism: two executions from the same state over the same frames
/// pass through the same states and end in the same state.
pub proof fn lemma_determinism(s1: Simulation, s2: Simulation, evs1: Seq<FrameEvents>, evs2: Seq<FrameEvents>)
    requires
        s1 == s2,
        evs1 == evs2,
    ensures
        trace(s1, evs1) == trace(s2, evs2),
        run(s1, evs1) == run(s2, evs2),
{
}

/// The state after some frames followed by more frames is the state after
/// all of them.
pub proof fn lemma_run_append(s: Simulation, a: Seq<FrameEvents>, b: Seq<FrameEvents>)
    ensures
        run(run(s, a), b) == run(s, a + b),
    decreases b.len(),
{
    if b.len() == 0 {
        assert(a + b =~= a);
    } else {
        lemma_run_append(s, a, b.drop_last());
        assert((a + b).drop_last() =~= a + b.drop_last());
        assert((a + b).last() == b.last());
    }
}

/// Resimulation: take a snapshot at some frame, run frames `evs` from it,
/// restore the snapshot and run the same frames again: the second run passes
/// through the same states and ends where the first did; both agree with a
/// run from the very start over all frames.
pub proof fn lemma_resimulation(
    start: Simulation,
    before: Seq<FrameEvents>,
    evs: Seq<FrameEvents>,
    snapshot: Simulation,
    restored: Simulation,
)
    requires
        snapshot == run(start, before),
        restored == snapshot,
    ensures
        run(restored, evs) == run(snapshot, evs),
        trace(restored, evs) == trace(snapshot, evs),
        run(restored, evs) == run(start, before + evs),
{
    lemma_run_append(start, before, evs);
}

proof fn lemma_interlude_frames(s: Simulation, evs: Seq<FrameEvents>, k: int)
    requires
        s.round_state == RoundState::InterludeStart,
        s.frame_count.frame == 0,
        !s.match_over,
        0 <= k < INTERLUDE_LENGTH,
        evs.len() >= k + 1,
    ensures
        run(s, evs.take(k + 1)) == (Simulation {
            round_state: RoundState::Interlude,
            frame_count: FrameCount { frame: k as u32 },
            ..s
        }),
    decreases k,
{
    if k == 0 {
        assert(evs.take(1).drop_last() =~= Seq::<FrameEvents>::empty());
        assert(run(s, Seq::<FrameEvents>::empty()) == s);
    } else {
        lemma_interlude_frames(s, evs, k - 1);
        assert(evs.take(k + 1).drop_last() =~= evs.take(k));
        assert(run(s, evs.take(k + 1)) == sim_next(run(s, evs.take(k)), evs.take(k + 1).last()));
    }
}

/// Round lifecycle: from the start of an interlude, the interlude lasts
/// exactly `INTERLUDE_LENGTH` frames; the frame after it ends the interlude,
/// and the next one starts the round with a fresh frame counter. The round
/// number does not change on the way.
pub proof fn lemma_interlude_then_round(s: Simulation, evs: Seq<FrameEvents>)
    requires
        s.round_state == RoundState::InterludeStart,
        s.frame_count.frame == 0,
        !s.match_over,
        evs.len() >= INTERLUDE_LENGTH + 2,
    ensures
        forall|n: int|
            1 <= n <= INTERLUDE_LENGTH ==> (#[trigger] run(s, evs.take(n))).round_state
                == RoundState::Interlude,
        run(s, evs.take(INTERLUDE_LENGTH + 1)).round_state == RoundState::InterludeEnd,
        run(s, evs.take(INTERLUDE_LENGTH + 2)).round_state == RoundState::RoundStart,
        run(s, evs.take(INTERLUDE_LENGTH + 2)).frame_count.frame == 0,
        run(s, evs.take(INTERLUDE_LENGTH + 2)).cur_round == s.cur_round,
{
    assert forall|n: int| 1 <= n <= INTERLUDE_LENGTH implies (#[trigger] run(s, evs.take(n))).round_state
        == RoundState::Interlude by {
        lemma_interlude_frames(s, evs, n - 1);
    }
    let l = INTERLUDE_LENGTH as int;
    lemma_interlude_frames(s, evs, l - 1);
    assert(evs.take(l + 1).drop_last() =~= evs.take(l));
    assert(evs.take(l + 2).drop_last() =~= evs.take(l + 1));
}

/// The round number goes up by exactly one on each frame spent in
/// `RoundEnd`, and stays on every other frame.
pub proof fn lemma_round_counter(s: Simulation, ev: FrameEvents)
    requires
        well_formed(s),
        !s.match_over,
    ensures
        sim_next(s, ev).cur_round == s.cur_round + if s.round_state == RoundState::RoundEnd {
            1int
        } else {
            0int
        },
{
}

/// Every interlude begins with a fresh frame counter.
pub proof fn lemma_interlude_starts_fresh(s: Simulation, ev: FrameEvents)
    requires
        well_formed(s),
        s.round_state != RoundState::InterludeStart,
        sim_next(s, ev).round_state == RoundState::InterludeStart,
    ensures
        sim_next(s, ev).frame_count.frame == 0,
{
}

} // verus!
