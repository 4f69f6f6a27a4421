//! Cakes: which attackers a cake hits, when it splats, and how many splats
//! it leaves.
use vstd::prelude::*;
use rand::{Rng, SeedableRng};
use crate::behavior::AttackerState;
use crate::contacts::{ContactRecord, Sign};

verus! {

/// Fewest splats that a cake leaves.
pub const MIN_SPLAT: u32 = 1;
/// Bound (exclusive) on the splats that a cake leaves.
pub const MAX_SPLAT: u32 = 5;

/// The first draw from `lo..hi` of a ChaCha8 generator seeded with `seed`.
pub uninterp spec fn chacha8_first_draw(seed: u64, lo: u32, hi: u32) -> u32;

/// Relies on rand_chacha's `ChaCha8Rng::seed_from_u64` and rand's `Rng::gen_range`:
/// a reproducible generator whose first draw from `lo..hi` lies in that range.
#[verifier::external_body]
fn first_draw_in_range(seed: u64, lo: u32, hi: u32) -> (r: u32)
    requires
        lo < hi,
    ensures
        lo <= r < hi,
        r == chacha8_first_draw(seed, lo, hi),
{
    let mut rng = rand_chacha::ChaCha8Rng::seed_from_u64(seed);
    rng.gen_range(lo..hi)
}

/// The number of splats of a cake that lands on frame `frame`: the frame
/// seeds the generator, so every peer and every resimulation draws the same.
pub fn splat_count(frame: u32) -> (r: u32)
    ensures
        MIN_SPLAT <= r < MAX_SPLAT,
        r == chacha8_first_draw(frame as u64, MIN_SPLAT, MAX_SPLAT),
{
    first_draw_in_range(frame as u64, MIN_SPLAT, MAX_SPLAT)
}

/// Attacker `attacker` was struck by cake `cake` this frame.
pub open spec fn struck(attacker: usize, cake: usize, contacts: Seq<ContactRecord>) -> bool {
    exists|i: int| 0 <= i < contacts.len() && #[trigger] contacts[i].a == attacker && contacts[i].b == cake
}

/// Cake `cake` landed on static ground this frame.
pub open spec fn landed(cake: usize, static_contacts: Seq<ContactRecord>) -> bool {
    exists|i: int|
        0 <= i < static_contacts.len() && #[trigger] static_contacts[i].a == cake
            && static_contacts[i].normal_y == Sign::Negative
}

fn is_struck(attacker: usize, cake: usize, contacts: &Vec<ContactRecord>) -> (r: bool)
    ensures
        r == struck(attacker, cake, contacts@),
{
    let mut i: usize = 0;
    while i < contacts.len()
        invariant
            i <= contacts@.len(),
            forall|j: int| 0 <= j < i ==> !(#[trigger] contacts@[j].a == attacker && contacts@[j].b == cake),
        decreases contacts@.len() - i,
    {
        if contacts[i].a == attacker && contacts[i].b == cake {
            return true;
        }
        i += 1;
    }
    false
}

fn has_landed(cake: usize, static_contacts: &Vec<ContactRecord>) -> (r: bool)
    ensures
        r == landed(cake, static_contacts@),
{
    let mut i: usize = 0;
    while i < static_contacts.len()
        invariant
            i <= static_contacts@.len(),
            forall|j: int|
                0 <= j < i ==> !(#[trigger] static_contacts@[j].a == cake
                    && static_contacts@[j].normal_y == Sign::Negative),
        decreases static_contacts@.len() - i,
    {
        if static_contacts[i].a == cake && static_contacts[i].normal_y == Sign::Negative {
            return true;
        }
        i += 1;
    }
    false
}

/// Resolves cake `cake` against this frame's contacts: every attacker it
/// struck is stunned (`Hit(0)`), the others keep their state. Returns whether
/// the cake splats, which it does when it struck an attacker or landed.
/// `attackers[k]` is the body of the attacker whose state is `states[k]`.
pub fn cake_collision(
    cake: usize,
    attackers: &Vec<usize>,
    states: &mut Vec<AttackerState>,
    contacts: &Vec<ContactRecord>,
    static_contacts: &Vec<ContactRecord>,
) -> (r: bool)
    requires
        attackers@.len() == old(states)@.len(),
    ensures
        final(states)@.len() == old(states)@.len(),
        forall|k: int|
            0 <= k < attackers@.len() ==> #[trigger] final(states)@[k] == if struck(
                attackers@[k],
                cake,
                contacts@,
            ) {
                AttackerState::Hit(0)
            } else {
                old(states)@[k]
            },
        r == ((exists|k: int| 0 <= k < attackers@.len() && struck(#[trigger] attackers@[k], cake, contacts@))
            || landed(cake, static_contacts@)),
{
    let mut collided = false;
    let mut k: usize = 0;
    while k < attackers.len()
        invariant
            k <= attackers@.len(),
            attackers@.len() == old(states)@.len(),
            states@.len() == old(states)@.len(),
            forall|j: int|
                0 <= j < k ==> #[trigger] states@[j] == if struck(attackers@[j], cake, contacts@) {
                    AttackerState::Hit(0)
                } else {
                    old(states)@[j]
                },
            forall|j: int| k <= j < states@.len() ==> #[trigger] states@[j] == old(states)@[j],
            collided == exists|j: int| 0 <= j < k && struck(#[trigger] attackers@[j], cake, contacts@),
        decreases attackers@.len() - k,
    {
        if is_struck(attackers[k], cake, contacts) {
            states.set(k, AttackerState::Hit(0));
            collided = true;
        }
        k += 1;
    }
    if has_landed(cake, static_contacts) {
        collided = true;
    }
    collided
}

} // verus!
