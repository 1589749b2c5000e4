//! Facts about the pet that hold across states and calls.
use vstd::prelude::*;
use crate::pet::Pet;

verus! {

/// Decay and every action keep each need of a well-formed pet in `0..=100`.
pub proof fn lemma_needs_stay_in_range(p: Pet, now: u64)
    requires
        p.wf(),
    ensures
        Pet::decayed(p, now).wf(),
        Pet::fed(p).wf(),
        Pet::played(p).wf(),
        Pet::slept(p).wf(),
{
}

/// Decay with no time passed leaves the pet as it was, so decaying twice at
/// the same moment gives the same pet as decaying once.
pub proof fn lemma_decay_idempotent(p: Pet, now: u64)
    requires
        p.wf(),
    ensures
        Pet::decayed(p, p.last_update) == p,
        Pet::decayed(Pet::decayed(p, now), now) == Pet::decayed(p, now),
{
    let q = Pet::decayed(p, now);
    assert(Pet::decayed(p, p.last_update) == p);
    assert(Pet::decayed(q, now) == q);
}

/// Feeding never raises hunger, sleeping never lowers energy, and playing,
/// when the pet has the energy for it, never lowers happiness.
pub proof fn lemma_action_directions(p: Pet)
    requires
        p.wf(),
    ensures
        Pet::fed(p).hunger <= p.hunger,
        Pet::slept(p).energy >= p.energy,
        Pet::can_play(p) ==> Pet::played(p).happiness >= p.happiness,
{
}

/// A gap of one second over an hour adds exactly one year of age; a gap of
/// exactly an hour adds none.
pub proof fn lemma_age_step(p: Pet)
    requires
        p.wf(),
        p.age < u32::MAX,
        p.last_update + 3601 <= u64::MAX,
    ensures
        Pet::decayed(p, (p.last_update + 3601) as u64).age == p.age + 1,
        Pet::decayed(p, (p.last_update + 3600) as u64).age == p.age,
{
}

} // verus!
