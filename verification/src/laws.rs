//! Laws of the distance classifier, the disambiguator, and the containment
//! moves, stated and proved once for every world.

use vstd::prelude::*;

use crate::types::{AmbiguousOption, Distance, LOC_PLAYER};
use crate::world::{lemma_resolve_characterization, World};

verus! {

/// Every entity is at distance `Player` from itself.
pub proof fn lemma_distance_reflexive(w: World, a: usize)
    ensures
        w.spec_distance(Some(a), Some(a)) == Distance::Player,
{
}

/// An entity contained directly in another is `Held` by it.
pub proof fn lemma_distance_held(w: World, a: usize, b: usize)
    requires
        a != b,
        w.objects@[b as int].location == Some(a),
    ensures
        w.spec_distance(Some(a), Some(b)) == Distance::Held,
{
}

/// The classifier is never symmetric across a containment edge: where `b`
/// is held by `a` and the containment relation has no cycle between them (it
/// forms a forest), the two directions classify differently — `Held` one way,
/// `Location` the other.
pub proof fn lemma_distance_asymmetric(w: World, a: usize, b: usize)
    requires
        a != b,
        w.objects@[b as int].location == Some(a),
        w.objects@[a as int].location != Some(b),
    ensures
        w.spec_distance(Some(a), Some(b)) == Distance::Held,
        w.spec_distance(Some(b), Some(a)) == Distance::Location,
        w.spec_distance(Some(b), Some(a)) != w.spec_distance(Some(a), Some(b)),
{
}

/// The length of the entity store fits in a machine word.
proof fn lemma_num_objects_bound(w: World)
    ensures
        w.num_objects() <= usize::MAX,
{
    broadcast use vstd::std_specs::vec::axiom_spec_len;

    assert(vstd::std_specs::vec::spec_vec_len(&w.objects) == w.objects@.len());
}

/// Resolution never returns a single find when two distinct entities match
/// the same label within the same ceiling: it is `Ambiguous` then, however
/// many entities match in all.
pub proof fn lemma_resolve_ambiguous(
    w: World,
    noun_low: Seq<char>,
    from: Option<usize>,
    ceiling: Distance,
    i: int,
    j: int,
)
    requires
        0 <= i < j < w.num_objects(),
        w.noun_matches_at(noun_low, from, ceiling, i),
        w.noun_matches_at(noun_low, from, ceiling, j),
    ensures
        w.spec_resolve(noun_low, from, ceiling) is Ambiguous,
{
    lemma_num_objects_bound(w);
    lemma_resolve_characterization(w, noun_low, from, ceiling, w.num_objects());
}

/// When resolution does return a single find, that entity matches and no
/// other does.
pub proof fn lemma_resolve_found_unique(
    w: World,
    noun_low: Seq<char>,
    from: Option<usize>,
    ceiling: Distance,
    i: usize,
)
    requires
        w.spec_resolve(noun_low, from, ceiling) == AmbiguousOption::One(i),
    ensures
        (i as int) < w.num_objects(),
        w.noun_matches_at(noun_low, from, ceiling, i as int),
        forall|m: int|
            0 <= m < w.num_objects() && m != i ==> !(#[trigger] w.noun_matches_at(
                noun_low,
                from,
                ceiling,
                m,
            )),
{
    lemma_num_objects_bound(w);
    lemma_resolve_characterization(w, noun_low, from, ceiling, w.num_objects());
}

/// Picking an object up from the player's room and dropping it again restores
/// its container: the get moves it onto the player, the drop moves it to the
/// player's room, and the player has not moved in between.
pub proof fn lemma_get_drop_round_trip(w1: World, w2: World, w3: World, i: usize)
    requires
        0 <= (i as int) < w1.num_objects(),
        (LOC_PLAYER as int) < w1.num_objects(),
        i != LOC_PLAYER,
        w1.objects@[i as int].location is Some,
        w1.objects@[i as int].location == w1.objects@[LOC_PLAYER as int].location,
        World::spec_moved(w1, w2, Some(i), Some(LOC_PLAYER)),
        World::spec_moved(w2, w3, Some(i), w2.objects@[LOC_PLAYER as int].location),
    ensures
        w3.objects@[i as int].location == w1.objects@[i as int].location,
{
}

} // verus!
