//! The entity store: a flat collection of entities addressed by stable index,
//! with the containment model, the distance classifier, and the disambiguator.

use vstd::prelude::*;

use crate::text::{lower_of, lowercase};
use crate::types::{
    dist_rank, distance_le, AmbiguousOption, Distance, Object, LOC_BANDITS, LOC_BEAR, LOC_CAVE,
    LOC_DUNGEONS, LOC_FOREST, LOC_PLAYER, LOC_TAVERN, LOC_TROLL,
};

verus! {

/// The world: every entity of the session, addressed by creation index.
pub struct World {
    pub objects: Vec<Object>,
}

/// Labels of an entity, as sequences of characters.
pub open spec fn labels_of(o: Object) -> Seq<Seq<char>> {
    o.label@.map_values(|s: String| s@)
}

/// An entity matches a (lower-cased) noun when some alias of it lower-cases
/// to that noun.
pub open spec fn spec_label_matches(o: Object, noun_low: Seq<char>) -> bool {
    exists|j: int| 0 <= j < o.label@.len() && lower_of(#[trigger] o.label@[j]@) == noun_low
}

/// What each resolution outcome says about the matches: `Nothing` means no
/// entity matches, `One(i)` means `i` is the only match, and `Ambiguous`
/// means two distinct entities match.
pub proof fn lemma_resolve_characterization(
    w: World,
    noun_low: Seq<char>,
    from: Option<usize>,
    ceiling: Distance,
    n: int,
)
    requires
        n <= usize::MAX,
    ensures
        w.spec_resolve_upto(noun_low, from, ceiling, n) is Nothing <==> (forall|k: int|
            0 <= k < n ==> !(#[trigger] w.noun_matches_at(noun_low, from, ceiling, k))),
        w.spec_resolve_upto(noun_low, from, ceiling, n) matches AmbiguousOption::One(i) ==> {
            &&& 0 <= i < n
            &&& w.noun_matches_at(noun_low, from, ceiling, i as int)
            &&& forall|m: int|
                0 <= m < n && m != i ==> !(#[trigger] w.noun_matches_at(noun_low, from, ceiling, m))
        },
        w.spec_resolve_upto(noun_low, from, ceiling, n) is Ambiguous <==> (exists|i: int, j: int|
            0 <= i < j < n && #[trigger] w.noun_matches_at(noun_low, from, ceiling, i)
                && #[trigger] w.noun_matches_at(noun_low, from, ceiling, j)),
    decreases n,
{
    if n > 0 {
        lemma_resolve_characterization(w, noun_low, from, ceiling, n - 1);
        let prev = w.spec_resolve_upto(noun_low, from, ceiling, n - 1);
        if w.noun_matches_at(noun_low, from, ceiling, n - 1) {
            match prev {
                AmbiguousOption::Nothing => {},
                AmbiguousOption::One(i) => {
                    assert(w.noun_matches_at(noun_low, from, ceiling, i as int)
                        && w.noun_matches_at(noun_low, from, ceiling, n - 1) && i < n - 1);
                },
                AmbiguousOption::Ambiguous => {},
            }
        }
    }
}

/// Once a scan has found no entity at `target` among the first `pos` and
/// entity `pos` sits there, the first entity at `target` overall is `pos`.
proof fn lemma_first_at_found(w: World, target: Option<usize>, pos: int, n: int)
    requires
        0 <= pos < n,
        w.spec_first_at(target, pos) is None,
        w.objects@[pos].location == target,
    ensures
        w.spec_first_at(target, n) == Some(pos as usize),
    decreases n,
{
    if n > pos + 1 {
        lemma_first_at_found(w, target, pos, n - 1);
    }
}

/// All the attributes of one entity at once, for stating what a constructor
/// built.
pub open spec fn obj_spec(
    o: Object,
    labs: Seq<Seq<char>>,
    desc: Seq<char>,
    location: Option<usize>,
    destination: Option<usize>,
    item: Option<bool>,
    enemy: bool,
    health: Option<u64>,
    attack: Option<u64>,
    consumable: Option<bool>,
) -> bool {
    &&& labels_of(o) =~= labs
    &&& o.description@ == desc
    &&& o.location == location
    &&& o.destination == destination
    &&& o.item == item
    &&& o.enemy == enemy
    &&& o.health == health
    &&& o.attack == attack
    &&& o.consumable == consumable
}

/// A single-alias label list.
fn label1(a: &str) -> (r: Vec<String>)
    ensures
        r@.len() == 1,
        r@[0]@ == a@,
{
    let mut v: Vec<String> = Vec::new();
    v.push(a.to_owned());
    v
}

/// A two-alias label list.
fn label2(a: &str, b: &str) -> (r: Vec<String>)
    ensures
        r@.len() == 2,
        r@[0]@ == a@,
        r@[1]@ == b@,
{
    let mut v: Vec<String> = Vec::new();
    v.push(a.to_owned());
    v.push(b.to_owned());
    v
}

/// A three-alias label list.
fn label3(a: &str, b: &str, c: &str) -> (r: Vec<String>)
    ensures
        r@.len() == 3,
        r@[0]@ == a@,
        r@[1]@ == b@,
        r@[2]@ == c@,
{
    let mut v: Vec<String> = Vec::new();
    v.push(a.to_owned());
    v.push(b.to_owned());
    v.push(c.to_owned());
    v
}

impl World {
    /// Number of entities in the store.
    pub open spec fn num_objects(self) -> int {
        self.objects@.len() as int
    }

    /// Every containment and destination reference stays inside the store,
    /// every entity carries at least one alias, and the player entity exists.
    pub open spec fn wf(self) -> bool {
        &&& self.num_objects() > LOC_PLAYER
        &&& forall|i: int|
            0 <= i < self.num_objects() ==> {
                let o = #[trigger] self.objects@[i];
                &&& (o.location is Some ==> (o.location->0 as int) < self.num_objects())
                &&& (o.destination is Some ==> (o.destination->0 as int) < self.num_objects())
                &&& o.label@.len() >= 1
            }
    }

    /// The player entity is placed somewhere (it has a current room).
    pub open spec fn player_placed(self) -> bool {
        self.objects@[LOC_PLAYER as int].location is Some
    }

    /// An index argument is inside the store whenever it is present.
    pub open spec fn valid_ref(self, i: Option<usize>) -> bool {
        i is Some ==> (i->0 as int) < self.num_objects()
    }

    /// `object` is directly contained in `container`.
    pub open spec fn spec_contains(self, container: Option<usize>, object: Option<usize>) -> bool {
        object is Some && self.objects@[object->0 as int].location == container
    }

    /// The immediate container of `from`, if `from` names an entity.
    pub open spec fn spec_loc_of(self, from: Option<usize>) -> Option<usize> {
        match from {
            Some(i) => self.objects@[i as int].location,
            None => None,
        }
    }

    /// Some entity located at `from` has `to` as its destination: a passage
    /// from `from` to `to` exists.
    pub open spec fn spec_has_passage(self, from: Option<usize>, to: Option<usize>) -> bool {
        from is Some && to is Some && exists|p: int|
            0 <= p < self.num_objects() && (#[trigger] self.objects@[p]).location == from
                && self.objects@[p].destination == to
    }

    /// The distance class from `from` to `to`: the mathematical counterpart of
    /// the classifier.
    pub open spec fn spec_distance(self, from: Option<usize>, to: Option<usize>) -> Distance {
        if to is None {
            Distance::Unknown
        } else if to == from {
            Distance::Player
        } else if self.spec_contains(from, to) {
            Distance::Held
        } else if self.spec_contains(to, from) {
            Distance::Location
        } else if self.spec_loc_of(from) is Some && self.spec_contains(self.spec_loc_of(from), to) {
            Distance::Here
        } else if self.spec_has_passage(self.spec_loc_of(from), to) {
            Distance::OverThere
        } else {
            Distance::NotHere
        }
    }

    /// Entity `i` matches `noun_low` within the `ceiling` bound, seen from
    /// `from`.
    pub open spec fn noun_matches_at(
        self,
        noun_low: Seq<char>,
        from: Option<usize>,
        ceiling: Distance,
        i: int,
    ) -> bool {
        &&& spec_label_matches(self.objects@[i], noun_low)
        &&& dist_rank(self.spec_distance(from, Some(i as usize))) <= dist_rank(ceiling)
    }

    /// Resolution outcome over the first `n` entities: none, the single match,
    /// or ambiguous as soon as a second match appears.
    pub open spec fn spec_resolve_upto(
        self,
        noun_low: Seq<char>,
        from: Option<usize>,
        ceiling: Distance,
        n: int,
    ) -> AmbiguousOption<usize>
        decreases n,
    {
        if n <= 0 {
            AmbiguousOption::Nothing
        } else {
            let prev = self.spec_resolve_upto(noun_low, from, ceiling, n - 1);
            if self.noun_matches_at(noun_low, from, ceiling, n - 1) {
                match prev {
                    AmbiguousOption::Nothing => AmbiguousOption::One((n - 1) as usize),
                    _ => AmbiguousOption::Ambiguous,
                }
            } else {
                prev
            }
        }
    }

    /// The first alias of entity `i`.
    pub open spec fn spec_label0(self, i: int) -> Seq<char> {
        self.objects@[i].label@[0]@
    }

    /// Resolution outcome over the whole store.
    pub open spec fn spec_resolve(
        self,
        noun_low: Seq<char>,
        from: Option<usize>,
        ceiling: Distance,
    ) -> AmbiguousOption<usize> {
        self.spec_resolve_upto(noun_low, from, ceiling, self.num_objects())
    }

    /// Whether `object` is directly contained in `container`.
    pub fn is_containing(&self, container: Option<usize>, object: Option<usize>) -> (r: bool)
        requires
            self.valid_ref(object),
        ensures
            r == self.spec_contains(container, object),
    {
        match object {
            Option::None => false,
            Option::Some(i) => self.objects[i].location == container,
        }
    }

    /// The first entity that is a passage from `from` to `to`, if any.
    pub fn passage_index(&self, from: Option<usize>, to: Option<usize>) -> (r: Option<usize>)
        ensures
            r is Some <==> self.spec_has_passage(from, to),
            r matches Some(p) ==> {
                &&& (p as int) < self.num_objects()
                &&& self.objects@[p as int].location == from
                &&& self.objects@[p as int].destination == to
                &&& forall|q: int|
                    0 <= q < p ==> !((#[trigger] self.objects@[q]).location == from
                        && self.objects@[q].destination == to)
            },
    {
        if from.is_none() || to.is_none() {
            return Option::None;
        }
        let n = self.objects.len();
        let mut pos: usize = 0;
        while pos < n
            invariant
                n == self.num_objects(),
                pos <= n,
                from is Some && to is Some,
                forall|p: int|
                    0 <= p < pos ==> !((#[trigger] self.objects@[p]).location == from
                        && self.objects@[p].destination == to),
            decreases n - pos,
        {
            let obj_loc = self.objects[pos].location;
            let obj_dest = self.objects[pos].destination;
            if obj_loc == from && obj_dest == to {
                return Option::Some(pos);
            }
            pos = pos + 1;
        }
        Option::None
    }

    /// The distance class from `from` to `to`.
    pub fn get_distance(&self, from: Option<usize>, to: Option<usize>) -> (r: Distance)
        requires
            self.valid_ref(from),
            self.valid_ref(to),
            self.wf(),
        ensures
            r == self.spec_distance(from, to),
    {
        let from_loc = match from {
            Option::Some(a) => self.objects[a].location,
            Option::None => Option::None,
        };
        if to.is_none() {
            Distance::Unknown
        } else if to == from {
            Distance::Player
        } else if self.is_containing(from, to) {
            Distance::Held
        } else if from.is_some() && self.is_containing(to, from) {
            Distance::Location
        } else if from_loc.is_some() && self.is_containing(from_loc, to) {
            Distance::Here
        } else if self.passage_index(from_loc, to).is_some() {
            Distance::OverThere
        } else {
            Distance::NotHere
        }
    }

    /// Whether some alias of `object` equals `noun`, case-insensitively.
    pub fn object_with_label(&self, object: &Object, noun: &str) -> (r: bool)
        ensures
            r == spec_label_matches(*object, lower_of(noun@)),
    {
        let noun_low = lowercase(noun);
        let n = object.label.len();
        let mut j: usize = 0;
        while j < n
            invariant
                n == object.label@.len(),
                j <= n,
                noun_low@ == lower_of(noun@),
                forall|k: int| 0 <= k < j ==> lower_of(#[trigger] object.label@[k]@) != lower_of(noun@),
            decreases n - j,
        {
            let label_low = lowercase(object.label[j].as_str());
            if label_low == noun_low {
                return true;
            }
            j = j + 1;
        }
        false
    }

    /// Resolves `noun` against the store, bounded by `max_distance` seen from
    /// `from`: no match, the unique match, or ambiguous.
    pub fn object_index(&self, noun: &str, from: Option<usize>, max_distance: Distance) -> (r:
        AmbiguousOption<usize>)
        requires
            self.wf(),
            self.valid_ref(from),
        ensures
            r == self.spec_resolve(lower_of(noun@), from, max_distance),
            r matches AmbiguousOption::One(i) ==> (i as int) < self.num_objects()
                && self.noun_matches_at(lower_of(noun@), from, max_distance, i as int),
    {
        let mut result: AmbiguousOption<usize> = AmbiguousOption::Nothing;
        let n = self.objects.len();
        proof {
            lemma_resolve_characterization(
                *self,
                lower_of(noun@),
                from,
                max_distance,
                self.num_objects(),
            );
        }
        let mut pos: usize = 0;
        while pos < n
            invariant
                n == self.num_objects(),
                pos <= n,
                self.wf(),
                self.valid_ref(from),
                result == self.spec_resolve_upto(lower_of(noun@), from, max_distance, pos as int),
            decreases n - pos,
        {
            let matches_label = self.object_with_label(&self.objects[pos], noun);
            let within = distance_le(self.get_distance(from, Option::Some(pos)), max_distance);
            if matches_label && within {
                result = match result {
                    AmbiguousOption::Nothing => AmbiguousOption::One(pos),
                    _ => AmbiguousOption::Ambiguous,
                };
            }
            pos = pos + 1;
        }
        result
    }

    /// What `object_visible` reports for a noun: empty on success, otherwise
    /// the message distinguishing unknown words, absent objects, and
    /// ambiguity.
    pub open spec fn spec_visible_report(self, noun: Seq<char>) -> Seq<char> {
        let over = self.spec_resolve(lower_of(noun), Some(LOC_PLAYER), Distance::OverThere);
        let nh = self.spec_resolve(lower_of(noun), Some(LOC_PLAYER), Distance::NotHere);
        match (over, nh) {
            (AmbiguousOption::Nothing, AmbiguousOption::Nothing) => "Invalid command!!"@,
            (AmbiguousOption::Nothing, AmbiguousOption::One(_)) => "You don't see any '"@ + noun
                + "' here.\n"@,
            (AmbiguousOption::One(_), _) => Seq::<char>::empty(),
            _ => "Please be more specific about which "@ + noun + " you mean.\n"@,
        }
    }

    /// What `object_visible` resolves a noun to: the unique match within the
    /// `OverThere` bound, if there is one.
    pub open spec fn spec_visible_index(self, noun: Seq<char>) -> Option<usize> {
        match self.spec_resolve(lower_of(noun), Some(LOC_PLAYER), Distance::OverThere) {
            AmbiguousOption::One(i) => Some(i),
            _ => None,
        }
    }

    /// Resolves a noun as seen by the player, twice: once bounded at
    /// `OverThere` for a target, once at `NotHere` to tell an unknown word
    /// from one that exists out of reach.
    pub fn object_visible(&self, noun: &String) -> (r: (String, Option<usize>))
        requires
            self.wf(),
        ensures
            r.0@ == self.spec_visible_report(noun@),
            r.1 == self.spec_visible_index(noun@),
            r.1 matches Some(i) ==> (i as int) < self.num_objects() && self.noun_matches_at(
                lower_of(noun@),
                Some(LOC_PLAYER),
                Distance::OverThere,
                i as int,
            ),
    {
        let obj_over_there = self.object_index(noun.as_str(), Option::Some(LOC_PLAYER), Distance::OverThere);
        let obj_not_here = self.object_index(noun.as_str(), Option::Some(LOC_PLAYER), Distance::NotHere);

        match (obj_over_there, obj_not_here) {
            (AmbiguousOption::Nothing, AmbiguousOption::Nothing) => (
                String::from_str("Invalid command!!"),
                Option::None,
            ),
            (AmbiguousOption::Nothing, AmbiguousOption::One(_)) => {
                let mut m = String::from_str("You don't see any '");
                m.append(noun.as_str());
                m.append("' here.\n");
                (m, Option::None)
            },
            (AmbiguousOption::One(index), _) => (String::new(), Option::Some(index)),
            _ => {
                let mut m = String::from_str("Please be more specific about which ");
                m.append(noun.as_str());
                m.append(" you mean.\n");
                (m, Option::None)
            },
        }
    }

    /// Entity `i` appears in the listing of `location`: it sits there, it is
    /// not the player, and it is no multi-alias scenery.
    pub open spec fn spec_listed(self, location: usize, i: int) -> bool {
        &&& i != LOC_PLAYER
        &&& self.spec_contains(Some(location), Some(i as usize))
        &&& self.objects@[i].label@.len() == 1
    }

    /// The listing of `location` over the first `n` entities, with the count
    /// of entities listed; a header line precedes the first one.
    pub open spec fn spec_listing(self, location: usize, n: int) -> (Seq<char>, int)
        decreases n,
    {
        if n <= 0 {
            (Seq::<char>::empty(), 0)
        } else {
            let (s, c) = self.spec_listing(location, n - 1);
            if self.spec_listed(location, n - 1) {
                if c == 0 {
                    (s + "\nYou see:\n"@ + self.objects@[n - 1].description@ + "\n"@, 1int)
                } else {
                    (s + self.objects@[n - 1].description@ + "\n"@, c + 1)
                }
            } else {
                (s, c)
            }
        }
    }

    /// Lists every entity directly contained in `location`, save the player
    /// and scenery, and says how many there were.
    pub fn list_objects(&self, location: usize) -> (r: (String, u64))
        ensures
            r.0@ == self.spec_listing(location, self.num_objects()).0,
            r.1 as int == self.spec_listing(location, self.num_objects()).1,
    {
        let mut result = String::new();
        let mut count: u64 = 0;
        let n = self.objects.len();
        let mut pos: usize = 0;
        while pos < n
            invariant
                n == self.num_objects(),
                pos <= n,
                count as int <= pos as int,
                result@ == self.spec_listing(location, pos as int).0,
                count as int == self.spec_listing(location, pos as int).1,
            decreases n - pos,
        {
            let contained = self.is_containing(Option::Some(location), Option::Some(pos));
            if pos != LOC_PLAYER && contained && self.objects[pos].label.len() == 1 {
                if count == 0 {
                    result.append("\nYou see:\n");
                }
                count = count + 1;
                result.append(self.objects[pos].description.as_str());
                result.append("\n");
            }
            pos = pos + 1;
        }
        (result, count)
    }

    /// Whether the game has ended: the player's health is exhausted, or there
    /// are enemies and every one of them is spent.
    pub open spec fn spec_game_over(self) -> bool {
        ||| self.objects@[LOC_PLAYER as int].health == Some(0u64)
        ||| {
            &&& exists|i: int| 0 <= i < self.num_objects() && (#[trigger] self.objects@[i]).enemy
            &&& forall|i: int|
                0 <= i < self.num_objects() && (#[trigger] self.objects@[i]).enemy
                    ==> self.objects@[i].health == Some(0u64)
        }
    }

    /// Whether the game has ended.
    pub fn game_over(&self) -> (r: bool)
        requires
            self.wf(),
        ensures
            r == self.spec_game_over(),
    {
        if self.objects[LOC_PLAYER].health == Option::Some(0u64) {
            return true;
        }
        let n = self.objects.len();
        let mut any_enemy = false;
        let mut i: usize = 0;
        while i < n
            invariant
                n == self.num_objects(),
                i <= n,
                !(self.objects@[LOC_PLAYER as int].health == Some(0u64)),
                any_enemy == exists|k: int|
                    0 <= k < i && (#[trigger] self.objects@[k]).enemy,
                forall|k: int|
                    0 <= k < i && (#[trigger] self.objects@[k]).enemy ==> self.objects@[k].health
                        == Some(0u64),
            decreases n - i,
        {
            if self.objects[i].enemy {
                if !(self.objects[i].health == Option::Some(0u64)) {
                    return false;
                }
                any_enemy = true;
            }
            i = i + 1;
        }
        any_enemy
    }

    /// The first entity whose container equals the player's current one.
    pub open spec fn spec_first_at(self, target: Option<usize>, n: int) -> Option<usize>
        decreases n,
    {
        if n <= 0 {
            None
        } else {
            match self.spec_first_at(target, n - 1) {
                Some(i) => Some(i),
                None => if self.objects@[n - 1].location == target {
                    Some((n - 1) as usize)
                } else {
                    None
                },
            }
        }
    }

    /// The first entity that shares the player's current container; the player
    /// entity itself matches, so some entity is always found.
    pub fn player_here(&self) -> (r: Option<usize>)
        requires
            self.wf(),
        ensures
            r == self.spec_first_at(self.objects@[LOC_PLAYER as int].location, self.num_objects()),
            r matches Some(i) ==> (i as int) < self.num_objects(),
            r is Some,
    {
        let target = self.objects[LOC_PLAYER].location;
        let n = self.objects.len();
        let mut pos: usize = 0;
        while pos < n
            invariant
                n == self.num_objects(),
                n > LOC_PLAYER,
                pos <= n,
                target == self.objects@[LOC_PLAYER as int].location,
                self.spec_first_at(target, pos as int) is None,
                pos <= LOC_PLAYER,
            decreases n - pos,
        {
            if self.objects[pos].location == target {
                proof {
                    lemma_first_at_found(*self, target, pos as int, self.num_objects());
                }
                return Option::Some(pos);
            }
            pos = pos + 1;
        }
        proof {
            assert(false);
        }
        Option::None
    }

    /// The built-in default world: four rooms, the player, three enemies,
    /// three items, the passages between the rooms, and dead-end scenery.
    pub fn new() -> (r: World)
        ensures
            r.wf(),
            r.player_placed(),
            r.num_objects() == 21,
            obj_spec(r.objects@[LOC_FOREST as int], seq!["Forest"@], "Look out for tree people"@,
                None, None, Some(false), false, None, None, None),
            obj_spec(r.objects@[LOC_DUNGEONS as int], seq!["Dungeons"@],
                "Be aware of the trolls in the dungeon."@, None, None, Some(false), false, None,
                None, None),
            obj_spec(r.objects@[LOC_CAVE as int], seq!["Cave"@],
                "Watch out for bats and look for light."@, None, None, Some(false), false, None,
                None, None),
            obj_spec(r.objects@[LOC_TAVERN as int], seq!["Tavern"@],
                "The tavern is empty. But the fire is still burning in the fireplace."@, None,
                None, Some(false), false, None, None, None),
            obj_spec(r.objects@[LOC_PLAYER as int], seq!["Player"@], "You"@, Some(LOC_FOREST),
                None, Some(false), false, Some(100u64), None, None),
            obj_spec(r.objects@[LOC_BEAR as int], seq!["Bear"@], "A Grizzly bear"@, Some(LOC_CAVE),
                None, Some(false), true, Some(100u64), Some(10u64), None),
            obj_spec(r.objects@[6], seq!["Sword"@], "A rusty sword."@, Some(LOC_DUNGEONS), None,
                Some(true), false, None, Some(20u64), None),
            obj_spec(r.objects@[7], seq!["Bow"@], "A bow."@, Some(LOC_TAVERN), None, Some(true),
                false, None, Some(10u64), None),
            obj_spec(r.objects@[8], seq!["Bones"@], "Bones of some animal."@, Some(LOC_CAVE), None,
                Some(true), false, None, Some(5u64), None),
            obj_spec(r.objects@[9], seq!["North"@],
                "A path to the north leading out of the forest leading to an old Tavern"@,
                Some(LOC_FOREST), Some(LOC_TAVERN), Some(false), false, None, None, None),
            obj_spec(r.objects@[10], seq!["South"@],
                "A path to the south leading back to the forest"@, Some(LOC_TAVERN),
                Some(LOC_FOREST), Some(false), false, None, None, None),
            obj_spec(r.objects@[11], seq!["East"@], "A path to the east leading to the Dungeons"@,
                Some(LOC_TAVERN), Some(LOC_DUNGEONS), Some(false), false, None, None, None),
            obj_spec(r.objects@[12], seq!["West"@], "A path to the west leading to the Tavern"@,
                Some(LOC_DUNGEONS), Some(LOC_TAVERN), Some(false), false, None, None, None),
            obj_spec(r.objects@[13], seq!["North"@], "A path to the north into a cave"@,
                Some(LOC_DUNGEONS), Some(LOC_CAVE), Some(false), false, None, None, None),
            obj_spec(r.objects@[14], seq!["South"@], "A path to the south into the dungeons"@,
                Some(LOC_CAVE), Some(LOC_DUNGEONS), Some(false), false, None, None, None),
            obj_spec(r.objects@[15], seq!["West"@, "East"@, "South"@],
                "You see nothing but trees. There is no other path in that direction."@,
                Some(LOC_FOREST), None, Some(false), false, None, None, None),
            obj_spec(r.objects@[16], seq!["West"@, "North"@],
                "There is no other path in that direction."@, Some(LOC_TAVERN), None, Some(false),
                false, None, None, None),
            obj_spec(r.objects@[17], seq!["East"@, "South"@],
                "You see only big rocks and boulders. There is no other path in that direction."@,
                Some(LOC_DUNGEONS), None, Some(false), false, None, None, None),
            obj_spec(r.objects@[18], seq!["East"@, "North"@, "West"@],
                "The cave has no paths in that direction"@, Some(LOC_CAVE), None, Some(false),
                false, None, None, None),
            obj_spec(r.objects@[LOC_TROLL as int], seq!["Troll"@], "A troll with a heavy club."@,
                Some(LOC_DUNGEONS), None, Some(false), true, Some(100u64), Some(10u64), None),
            obj_spec(r.objects@[LOC_BANDITS as int], seq!["Bandits"@],
                "A band of bandits around a table."@, Some(LOC_TAVERN), None, Some(false), true,
                Some(100u64), Some(10u64), None),
    {
        let mut objects: Vec<Object> = Vec::new();
        objects.push(Object {
            label: label1("Forest"),
            description: "Look out for tree people".to_owned(),
            location: Option::None,
            destination: Option::None,
            item: Option::Some(false),
            enemy: false,
            health: Option::None,
            attack: Option::None,
            consumable: Option::None,
        });
        objects.push(Object {
            label: label1("Dungeons"),
            description: "Be aware of the trolls in the dungeon.".to_owned(),
            location: Option::None,
            destination: Option::None,
            item: Option::Some(false),
            enemy: false,
            health: Option::None,
            attack: Option::None,
            consumable: Option::None,
        });
        objects.push(Object {
            label: label1("Cave"),
            description: "Watch out for bats and look for light.".to_owned(),
            location: Option::None,
            destination: Option::None,
            item: Option::Some(false),
            enemy: false,
            health: Option::None,
            attack: Option::None,
            consumable: Option::None,
        });
        objects.push(Object {
            label: label1("Tavern"),
            description: "The tavern is empty. But the fire is still burning in the fireplace.".to_owned(),
            location: Option::None,
            destination: Option::None,
            item: Option::Some(false),
            enemy: false,
            health: Option::None,
            attack: Option::None,
            consumable: Option::None,
        });
        objects.push(Object {
            label: label1("Player"),
            description: "You".to_owned(),
            location: Option::Some(LOC_FOREST),
            destination: Option::None,
            item: Option::Some(false),
            enemy: false,
            health: Option::Some(100),
            attack: Option::None,
            consumable: Option::None,
        });
        objects.push(Object {
            label: label1("Bear"),
            description: "A Grizzly bear".to_owned(),
            location: Option::Some(LOC_CAVE),
            destination: Option::None,
            item: Option::Some(false),
            enemy: true,
            health: Option::Some(100),
            attack: Option::Some(10),
            consumable: Option::None,
        });
        objects.push(Object {
            label: label1("Sword"),
            description: "A rusty sword.".to_owned(),
            location: Option::Some(LOC_DUNGEONS),
            destination: Option::None,
            item: Option::Some(true),
            enemy: false,
            health: Option::None,
            attack: Option::Some(20),
            consumable: Option::None,
        });
        objects.push(Object {
            label: label1("Bow"),
            description: "A bow.".to_owned(),
            location: Option::Some(LOC_TAVERN),
            destination: Option::None,
            item: Option::Some(true),
            enemy: false,
            health: Option::None,
            attack: Option::Some(10),
            consumable: Option::None,
        });
        objects.push(Object {
            label: label1("Bones"),
            description: "Bones of some animal.".to_owned(),
            location: Option::Some(LOC_CAVE),
            destination: Option::None,
            item: Option::Some(true),
            enemy: false,
            health: Option::None,
            attack: Option::Some(5),
            consumable: Option::None,
        });
        objects.push(Object {
            label: label1("North"),
            description: "A path to the north leading out of the forest leading to an old Tavern".to_owned(),
            location: Option::Some(LOC_FOREST),
            destination: Option::Some(LOC_TAVERN),
            item: Option::Some(false),
            enemy: false,
            health: Option::None,
            attack: Option::None,
            consumable: Option::None,
        });
        objects.push(Object {
            label: label1("South"),
            description: "A path to the south leading back to the forest".to_owned(),
            location: Option::Some(LOC_TAVERN),
            destination: Option::Some(LOC_FOREST),
            item: Option::Some(false),
            enemy: false,
            health: Option::None,
            attack: Option::None,
            consumable: Option::None,
        });
        objects.push(Object {
            label: label1("East"),
            description: "A path to the east leading to the Dungeons".to_owned(),
            location: Option::Some(LOC_TAVERN),
            destination: Option::Some(LOC_DUNGEONS),
            item: Option::Some(false),
            enemy: false,
            health: Option::None,
            attack: Option::None,
            consumable: Option::None,
        });
        objects.push(Object {
            label: label1("West"),
            description: "A path to the west leading to the Tavern".to_owned(),
            location: Option::Some(LOC_DUNGEONS),
            destination: Option::Some(LOC_TAVERN),
            item: Option::Some(false),
            enemy: false,
            health: Option::None,
            attack: Option::None,
            consumable: Option::None,
        });
        objects.push(Object {
            label: label1("North"),
            description: "A path to the north into a cave".to_owned(),
            location: Option::Some(LOC_DUNGEONS),
            destination: Option::Some(LOC_CAVE),
            item: Option::Some(false),
            enemy: false,
            health: Option::None,
            attack: Option::None,
            consumable: Option::None,
        });
        objects.push(Object {
            label: label1("South"),
            description: "A path to the south into the dungeons".to_owned(),
            location: Option::Some(LOC_CAVE),
            destination: Option::Some(LOC_DUNGEONS),
            item: Option::Some(false),
            enemy: false,
            health: Option::None,
            attack: Option::None,
            consumable: Option::None,
        });
        objects.push(Object {
            label: label3("West", "East", "South"),
            description: "You see nothing but trees. There is no other path in that direction.".to_owned(),
            location: Option::Some(LOC_FOREST),
            destination: Option::None,
            item: Option::Some(false),
            enemy: false,
            health: Option::None,
            attack: Option::None,
            consumable: Option::None,
        });
        objects.push(Object {
            label: label2("West", "North"),
            description: "There is no other path in that direction.".to_owned(),
            location: Option::Some(LOC_TAVERN),
            destination: Option::None,
            item: Option::Some(false),
            enemy: false,
            health: Option::None,
            attack: Option::None,
            consumable: Option::None,
        });
        objects.push(Object {
            label: label2("East", "South"),
            description: "You see only big rocks and boulders. There is no other path in that direction.".to_owned(),
            location: Option::Some(LOC_DUNGEONS),
            destination: Option::None,
            item: Option::Some(false),
            enemy: false,
            health: Option::None,
            attack: Option::None,
            consumable: Option::None,
        });
        objects.push(Object {
            label: label3("East", "North", "West"),
            description: "The cave has no paths in that direction".to_owned(),
            location: Option::Some(LOC_CAVE),
            destination: Option::None,
            item: Option::Some(false),
            enemy: false,
            health: Option::None,
            attack: Option::None,
            consumable: Option::None,
        });
        objects.push(Object {
            label: label1("Troll"),
            description: "A troll with a heavy club.".to_owned(),
            location: Option::Some(LOC_DUNGEONS),
            destination: Option::None,
            item: Option::Some(false),
            enemy: true,
            health: Option::Some(100),
            attack: Option::Some(10),
            consumable: Option::None,
        });
        objects.push(Object {
            label: label1("Bandits"),
            description: "A band of bandits around a table.".to_owned(),
            location: Option::Some(LOC_TAVERN),
            destination: Option::None,
            item: Option::Some(false),
            enemy: true,
            health: Option::Some(100),
            attack: Option::Some(10),
            consumable: Option::None,
        });
        World { objects }
    }

    /// Checks well-formedness of the store, so that unverified callers can
    /// validate a loaded world before playing it.
    pub fn is_well_formed(&self) -> (r: bool)
        ensures
            r == self.wf(),
    {
        let n = self.objects.len();
        if n <= LOC_PLAYER {
            return false;
        }
        let mut i: usize = 0;
        while i < n
            invariant
                n == self.num_objects(),
                n > LOC_PLAYER,
                i <= n,
                forall|k: int|
                    0 <= k < i ==> {
                        let o = #[trigger] self.objects@[k];
                        &&& (o.location is Some ==> (o.location->0 as int) < n)
                        &&& (o.destination is Some ==> (o.destination->0 as int) < n)
                        &&& o.label@.len() >= 1
                    },
            decreases n - i,
        {
            let o = &self.objects[i];
            let loc_ok = match o.location {
                Option::Some(l) => l < n,
                Option::None => true,
            };
            let dest_ok = match o.destination {
                Option::Some(d) => d < n,
                Option::None => true,
            };
            if !(loc_ok && dest_ok && o.label.len() >= 1) {
                return false;
            }
            i = i + 1;
        }
        true
    }
}

impl Default for World {
    /// The built-in default world.
    fn default() -> (r: World)
        ensures
            r.wf(),
            r.player_placed(),
            r.num_objects() == 21,
    {
        World::new()
    }
}

} // verus!
