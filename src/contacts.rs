//! This frame's contact buffers, reduced to what the game rules read: the
//! two bodies and the sign of the contact normal's vertical component.
use vstd::prelude::*;

verus! {

/// Sign of a number: below, at or above zero.
#[derive(Clone, Copy, Debug, PartialEq, Eq, Structural)]
pub enum Sign {
    Negative,
    Zero,
    Positive,
}

/// A contact found by the position solver: body `a` touched body `b`, with the
/// normal pointing from `a` to `b`. For a static contact `a` is the dynamic body.
#[derive(Clone, Copy, Debug, PartialEq, Eq, Structural)]
pub struct ContactRecord {
    pub a: usize,
    pub b: usize,
    pub normal_y: Sign,
}

/// A static contact puts `id` on the ground when its normal points down from `id`.
pub open spec fn static_ground(id: usize, c: ContactRecord) -> bool {
    c.a == id && c.normal_y == Sign::Negative
}

/// A dynamic contact puts `id` on the ground when the normal points down from
/// `id` to the other body: negative when `id` is first, positive when second.
pub open spec fn dynamic_ground(id: usize, c: ContactRecord) -> bool {
    if c.a == id {
        c.normal_y == Sign::Negative
    } else if c.b == id {
        c.normal_y == Sign::Positive
    } else {
        false
    }
}

/// Whether `id` rests on something this frame.
pub open spec fn grounded(id: usize, contacts: Seq<ContactRecord>, static_contacts: Seq<ContactRecord>) -> bool {
    (exists|i: int| 0 <= i < static_contacts.len() && static_ground(id, #[trigger] static_contacts[i]))
    || (exists|i: int| 0 <= i < contacts.len() && dynamic_ground(id, #[trigger] contacts[i]))
}

/// Whether `id` rests on something this frame.
pub fn is_grounded(id: usize, contacts: &Vec<ContactRecord>, static_contacts: &Vec<ContactRecord>) -> (r: bool)
    ensures
        r == grounded(id, contacts@, static_contacts@),
{
    let mut i: usize = 0;
    while i < static_contacts.len()
        invariant
            i <= static_contacts@.len(),
            forall|j: int| 0 <= j < i ==> !static_ground(id, #[trigger] static_contacts@[j]),
        decreases static_contacts@.len() - i,
    {
        let c = static_contacts[i];
        if c.a == id && c.normal_y == Sign::Negative {
            return true;
        }
        i += 1;
    }
    let mut k: usize = 0;
    while k < contacts.len()
        invariant
            k <= contacts@.len(),
            forall|j: int| 0 <= j < static_contacts@.len() ==> !static_ground(id, #[trigger] static_contacts@[j]),
            forall|j: int| 0 <= j < k ==> !dynamic_ground(id, #[trigger] contacts@[j]),
        decreases contacts@.len() - k,
    {
        let c = contacts[k];
        let hit = if c.a == id {
            c.normal_y == Sign::Negative
        } else if c.b == id {
            c.normal_y == Sign::Positive
        } else {
            false
        };
        if hit {
            return true;
        }
        k += 1;
    }
    false
}

} // verus!
