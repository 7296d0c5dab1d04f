//! Action handlers: each takes the world and a noun phrase, mutates the
//! containment state where the action succeeds, and returns a report string.

use vstd::prelude::*;

use crate::text::{lower_of, spec_decimal, u64_to_string};
use crate::types::{
    command_verb, or_zero, spec_command_verb, AmbiguousOption, Command, Distance, Object,
    LOC_PLAYER,
};
use crate::world::World;

verus! {

/// The help text, listing the command vocabulary.
pub open spec fn spec_help_text() -> Seq<char> {
    "Available commands are\n
        look\n
        attack <enemy name>\n
        go <location>\n
        get <item name>\n
        drop <item name>\n
        inventory \n
        quit\n
        help\n"@
}

impl World {
    /// The report of looking around: the current room's first alias and
    /// description, then the listing of what sits there.
    pub open spec fn spec_look_report(self) -> Seq<char> {
        let room = self.objects@[LOC_PLAYER as int].location->0 as int;
        " You are in the "@ + self.spec_label0(room) + "\n "@ + self.objects@[room].description@
            + ".\n"@ + self.spec_listing(room as usize, self.num_objects()).0
    }

    /// With no noun, reports the player's current room and its contents; any
    /// noun is an invalid command (examining one object is unsupported).
    pub fn do_look(&self, noun: &str) -> (r: String)
        requires
            self.wf(),
            self.player_placed(),
        ensures
            noun@.len() == 0 ==> r@ == self.spec_look_report(),
            noun@.len() != 0 ==> r@ == "Invalid command!!\n"@,
    {
        if noun.is_empty() {
            let room = self.objects[LOC_PLAYER].location.unwrap();
            let (list, _) = self.list_objects(room);
            let mut m = String::from_str(" You are in the ");
            m.append(self.objects[room].label[0].as_str());
            m.append("\n ");
            m.append(self.objects[room].description.as_str());
            m.append(".\n");
            m.append(list.as_str());
            m
        } else {
            String::from_str("Invalid command!!\n")
        }
    }

    /// The inventory report: the listing of what the player carries, or a
    /// fixed message when that is empty.
    pub open spec fn spec_inventory_report(self) -> Seq<char> {
        if self.spec_listing(LOC_PLAYER, self.num_objects()).1 == 0 {
            "You currently do not have anything in your inventory.\n"@
        } else {
            self.spec_listing(LOC_PLAYER, self.num_objects()).0
        }
    }

    /// Lists what the player carries.
    pub fn do_inventory(&self) -> (r: String)
        ensures
            r@ == self.spec_inventory_report(),
    {
        let (list_string, count) = self.list_objects(LOC_PLAYER);
        if count == 0 {
            String::from_str("You currently do not have anything in your inventory.\n")
        } else {
            list_string
        }
    }

    /// The report of moving `obj_opt` to `to`: dropped in the player's room,
    /// put into another container, picked up from the player's room, or taken
    /// from elsewhere.
    pub open spec fn spec_describe_move(self, obj_opt: Option<usize>, to: Option<usize>) -> Seq<
        char,
    > {
        let obj_loc = self.spec_loc_of(obj_opt);
        let player_loc = self.objects@[LOC_PLAYER as int].location;
        if obj_opt is Some && to is Some && player_loc is Some && to->0 == player_loc->0 {
            "You have dropped "@ + self.spec_label0(obj_opt->0 as int) + ".\n"@
        } else if obj_opt is Some && to is Some && to->0 != LOC_PLAYER {
            "You put "@ + self.spec_label0(obj_opt->0 as int) + " in "@ + self.spec_label0(
                to->0 as int,
            ) + ".\n"@
        } else if obj_opt is Some && obj_loc is Some && player_loc is Some && obj_loc->0
            == player_loc->0 {
            "You pick up the "@ + self.spec_label0(obj_opt->0 as int) + ".\n"@
        } else if obj_opt is Some && obj_loc is Some {
            "You got "@ + self.spec_label0(obj_opt->0 as int) + " from "@ + self.spec_label0(
                obj_loc->0 as int,
            ) + ".\n"@
        } else {
            "Please you have to drop something.\n"@
        }
    }

    /// Describes what moving `obj_opt` to `to` would mean from where the
    /// player stands, without moving anything.
    pub fn describe_move(&self, obj_opt: Option<usize>, to: Option<usize>) -> (r: String)
        requires
            self.wf(),
            self.valid_ref(obj_opt),
            self.valid_ref(to),
        ensures
            r@ == self.spec_describe_move(obj_opt, to),
    {
        let obj_loc = match obj_opt {
            Option::Some(a) => self.objects[a].location,
            Option::None => Option::None,
        };
        let player_loc = self.objects[LOC_PLAYER].location;

        match (obj_opt, obj_loc, to, player_loc) {
            (Option::Some(obj_idx), _, Option::Some(to_idx), Option::Some(player_loc_idx)) if to_idx
                == player_loc_idx => {
                let mut m = String::from_str("You have dropped ");
                m.append(self.objects[obj_idx].label[0].as_str());
                m.append(".\n");
                m
            },
            (Option::Some(obj_idx), _, Option::Some(to_idx), _) if to_idx != LOC_PLAYER => {
                let mut m = String::from_str("You put ");
                m.append(self.objects[obj_idx].label[0].as_str());
                m.append(" in ");
                m.append(self.objects[to_idx].label[0].as_str());
                m.append(".\n");
                m
            },
            (Option::Some(obj_idx), Option::Some(obj_loc_idx), _, Option::Some(player_loc_idx)) if
                obj_loc_idx == player_loc_idx => {
                let mut m = String::from_str("You pick up the ");
                m.append(self.objects[obj_idx].label[0].as_str());
                m.append(".\n");
                m
            },
            (Option::Some(obj_idx), Option::Some(obj_loc_idx), _, _) => {
                let mut m = String::from_str("You got ");
                m.append(self.objects[obj_idx].label[0].as_str());
                m.append(" from ");
                m.append(self.objects[obj_loc_idx].label[0].as_str());
                m.append(".\n");
                m
            },
            (Option::None, _, _, _) | (_, Option::None, _, _) => String::from_str(
                "Please you have to drop something.\n",
            ),
        }
    }

    /// The report `move_object` returns: empty when there is nothing to move,
    /// a refusal when there is nowhere to move it or it is out of play, and
    /// otherwise the description of the move.
    pub open spec fn spec_move_report(self, obj_opt: Option<usize>, to: Option<usize>) -> Seq<
        char,
    > {
        if obj_opt is None {
            Seq::<char>::empty()
        } else if to is None {
            "No one is present here to give.\n"@
        } else if self.spec_loc_of(obj_opt) is None {
            "You cannot get that!!\n"@
        } else {
            self.spec_describe_move(obj_opt, to)
        }
    }

    /// How `w2` follows from `w1` when `obj_opt` is moved to `to`: the one
    /// entity's container changes where the move happens, and nothing else.
    pub open spec fn spec_moved(w1: World, w2: World, obj_opt: Option<usize>, to: Option<usize>) -> bool {
        if obj_opt is Some && w1.spec_loc_of(obj_opt) is Some && to is Some {
            w2.objects@ =~= w1.objects@.update(
                obj_opt->0 as int,
                Object { location: to, ..w1.objects@[obj_opt->0 as int] },
            )
        } else {
            w2 == w1
        }
    }

    /// Moves `obj_opt` into container `to` when both exist and the object is
    /// in play, and reports what happened.
    pub fn move_object(&mut self, obj_opt: Option<usize>, to: Option<usize>) -> (r: String)
        requires
            old(self).wf(),
            old(self).valid_ref(obj_opt),
            old(self).valid_ref(to),
        ensures
            r@ == old(self).spec_move_report(obj_opt, to),
            World::spec_moved(*old(self), *final(self), obj_opt, to),
            final(self).wf(),
            final(self).objects@.len() == old(self).objects@.len(),
            final(self).objects@[LOC_PLAYER as int].location
                == old(self).objects@[LOC_PLAYER as int].location || obj_opt == Some(LOC_PLAYER),
            old(self).player_placed() ==> final(self).player_placed(),
    {
        let obj_loc = match obj_opt {
            Option::Some(a) => self.objects[a].location,
            Option::None => Option::None,
        };

        match (obj_opt, obj_loc, to) {
            (Option::None, _, _) => String::new(),
            (Option::Some(_), _, Option::None) => String::from_str(
                "No one is present here to give.\n",
            ),
            (Option::Some(_), Option::None, Option::Some(_)) => String::from_str(
                "You cannot get that!!\n",
            ),
            (Option::Some(obj_idx), Option::Some(_), Option::Some(to_idx)) => {
                let output = self.describe_move(obj_opt, to);
                self.objects[obj_idx].location = Option::Some(to_idx);
                output
            },
        }
    }

    /// Where possession resolution finds the object: the unique match within
    /// `Held` of `from`, unless it is `from` itself.
    pub open spec fn spec_possession_index(self, from: Option<usize>, noun_low: Seq<char>) -> Option<
        usize,
    > {
        if from is None {
            None
        } else {
            match self.spec_resolve(noun_low, from, Distance::Held) {
                AmbiguousOption::One(o) => if o == from->0 {
                    None
                } else {
                    Some(o)
                },
                _ => None,
            }
        }
    }

    /// What possession resolution reports: empty on success, otherwise which
    /// of the failures happened.
    pub open spec fn spec_possession_report(
        self,
        from: Option<usize>,
        cmd: Seq<char>,
        noun: Seq<char>,
    ) -> Seq<char> {
        let held = self.spec_resolve(lower_of(noun), from, Distance::Held);
        let not_here = self.spec_resolve(lower_of(noun), from, Distance::NotHere);
        if from is None {
            "I don't understand what is needed "@ + cmd + ".\n"@
        } else {
            match (held, not_here) {
                (AmbiguousOption::Nothing, AmbiguousOption::Nothing) => {
                    "Please use correct command for: "@ + cmd + ".\n"@
                },
                (AmbiguousOption::Nothing, _) => {
                    if from->0 == LOC_PLAYER {
                        "You are not holding any "@ + noun + ".\n"@
                    } else {
                        "You don't see any "@ + noun + " here.\n"@
                    }
                },
                (AmbiguousOption::One(o), _) => {
                    if o == from->0 {
                        "It is illegal to do this: "@ + self.spec_label0(o as int) + ".\n"@
                    } else {
                        Seq::<char>::empty()
                    }
                },
                (AmbiguousOption::Ambiguous, _) => {
                    "Please be more specific about which "@ + noun + " you want to "@ + cmd + ".\n"@
                },
            }
        }
    }

    /// Resolves a noun among what `from` holds, to tell apart "no such thing",
    /// "not held", "held by `from` itself", and ambiguity; on success hands
    /// back the held object's index.
    pub fn get_possession(&mut self, from: Option<usize>, command: Command, noun: &String) -> (r: (
        String,
        Option<usize>,
    ))
        requires
            old(self).wf(),
            old(self).valid_ref(from),
        ensures
            *final(self) == *old(self),
            r.0@ == old(self).spec_possession_report(from, spec_command_verb(&command), noun@),
            r.1 == old(self).spec_possession_index(from, lower_of(noun@)),
            r.1 matches Some(i) ==> (i as int) < old(self).num_objects(),
    {
        let object_held = self.object_index(noun.as_str(), from, Distance::Held);
        let object_not_here = self.object_index(noun.as_str(), from, Distance::NotHere);

        match (from, object_held, object_not_here) {
            (Option::None, _, _) => {
                let mut m = String::from_str("I don't understand what is needed ");
                m.append(command_verb(&command));
                m.append(".\n");
                (m, Option::None)
            },
            (Option::Some(_), AmbiguousOption::Nothing, AmbiguousOption::Nothing) => {
                let mut m = String::from_str("Please use correct command for: ");
                m.append(command_verb(&command));
                m.append(".\n");
                (m, Option::None)
            },
            (Option::Some(f), AmbiguousOption::Nothing, _) if f == LOC_PLAYER => {
                let mut m = String::from_str("You are not holding any ");
                m.append(noun.as_str());
                m.append(".\n");
                (m, Option::None)
            },
            (Option::Some(f), AmbiguousOption::One(object), _) if object == f => {
                let mut m = String::from_str("It is illegal to do this: ");
                m.append(self.objects[object].label[0].as_str());
                m.append(".\n");
                (m, Option::None)
            },
            (Option::Some(_), AmbiguousOption::Ambiguous, _) => {
                let mut m = String::from_str("Please be more specific about which ");
                m.append(noun.as_str());
                m.append(" you want to ");
                m.append(command_verb(&command));
                m.append(".\n");
                (m, Option::None)
            },
            (Option::Some(_), AmbiguousOption::One(object_held), _) => (
                String::new(),
                Option::Some(object_held),
            ),
            (Option::Some(_), AmbiguousOption::Nothing, _) => {
                let mut m = String::from_str("You don't see any ");
                m.append(noun.as_str());
                m.append(" here.\n");
                (m, Option::None)
            },
        }
    }

    /// Where `do_go` moves the player: the resolved entity itself when it lies
    /// over there, the resolved passage's destination when it has one, and
    /// nowhere otherwise.
    pub open spec fn spec_go_dest(self, noun: Seq<char>) -> Option<usize> {
        let idx = self.spec_visible_index(noun);
        let d = self.spec_distance(Some(LOC_PLAYER), idx);
        if d == Distance::OverThere {
            idx
        } else if d == Distance::NotHere || d == Distance::Unknown {
            None
        } else {
            self.objects@[idx->0 as int].destination
        }
    }

    /// What `do_go` reports when the player does not move: the not-found
    /// message, the resolution failure, or a dead end's description.
    pub open spec fn spec_go_fail_report(self, noun: Seq<char>) -> Seq<char> {
        let idx = self.spec_visible_index(noun);
        let d = self.spec_distance(Some(LOC_PLAYER), idx);
        if d == Distance::NotHere {
            "You don't see any '"@ + noun + "' here.\n"@
        } else if d == Distance::Unknown {
            self.spec_visible_report(noun)
        } else {
            self.objects@[idx->0 as int].description@
        }
    }

    /// Moves the player towards `noun`: directly onto an entity a passage
    /// leads to, or through a resolved passage to its destination; a dead end
    /// shows its description instead, and a resolution failure its message.
    /// Movement appends a look report for the new room.
    pub fn do_go(&mut self, noun: &String) -> (r: String)
        requires
            old(self).wf(),
            old(self).player_placed(),
        ensures
            old(self).spec_go_dest(noun@) matches Some(dest) ==> {
                &&& final(self).objects@ =~= old(self).objects@.update(
                    LOC_PLAYER as int,
                    Object {
                        location: Some(dest),
                        ..old(self).objects@[LOC_PLAYER as int]
                    },
                )
                &&& r@ == "OK.\n"@ + final(self).spec_look_report()
            },
            old(self).spec_go_dest(noun@) is None ==> final(self).objects@ =~= old(self).objects@
                && r@ == old(self).spec_go_fail_report(noun@),
            final(self).wf(),
            final(self).player_placed(),
    {
        let (output, obj_opt) = self.object_visible(noun);
        let d = self.get_distance(Option::Some(LOC_PLAYER), obj_opt);
        match d {
            Distance::OverThere => {
                self.objects[LOC_PLAYER].location = obj_opt;
                let mut m = String::from_str("OK.\n");
                proof {
                    reveal_strlit("");
                }
                let look = self.do_look("");
                m.append(look.as_str());
                m
            },
            Distance::NotHere => {
                let mut m = String::from_str("You don't see any '");
                m.append(noun.as_str());
                m.append("' here.\n");
                m
            },
            Distance::Unknown => output,
            _ => {
                let obj_index = obj_opt.unwrap();
                let obj_dest = self.objects[obj_index].destination;
                match obj_dest {
                    Option::Some(dest) => {
                        self.objects[LOC_PLAYER].location = Option::Some(dest);
                        let mut m = String::from_str("OK.\n");
                        proof {
                            reveal_strlit("");
                        }
                        let look = self.do_look("");
                        m.append(look.as_str());
                        m
                    },
                    Option::None => self.objects[obj_index].description.clone(),
                }
            },
        }
    }

    /// Whether the resolved entity carries the item flag.
    pub open spec fn spec_get_item_flag(self, idx: Option<usize>) -> bool {
        match idx {
            Some(a) => match self.objects@[a as int].item {
                Some(b) => b,
                None => false,
            },
            None => false,
        }
    }

    /// Whether `do_get` reaches its success path and moves the entity to the
    /// player.
    pub open spec fn spec_get_moves(self, noun: Seq<char>) -> bool {
        let idx = self.spec_visible_index(noun);
        let d = self.spec_distance(Some(LOC_PLAYER), idx);
        let item = self.spec_get_item_flag(idx);
        &&& d != Distance::Player
        &&& !(d == Distance::Held && idx is Some && item)
        &&& !(d == Distance::OverThere && item)
        &&& !((d == Distance::OverThere || d == Distance::Here || d == Distance::Held || d
            == Distance::Location) && !item)
        &&& !(d == Distance::Unknown && !item)
    }

    /// What `do_get` reports, for each combination of distance and item flag.
    pub open spec fn spec_get_report(self, noun: Seq<char>) -> Seq<char> {
        let rep = self.spec_visible_report(noun);
        let idx = self.spec_visible_index(noun);
        let d = self.spec_distance(Some(LOC_PLAYER), idx);
        let item = self.spec_get_item_flag(idx);
        if d == Distance::Player {
            rep + "Invalid!! You cannot get that!!"@
        } else if d == Distance::Held && idx is Some && item {
            rep + "You already have: "@ + self.objects@[idx->0 as int].description@ + ".\n"@
        } else if d == Distance::OverThere && item {
            rep + "The item is not here. Try elsewhere!!\n"@
        } else if (d == Distance::OverThere || d == Distance::Here || d == Distance::Held || d
            == Distance::Location) && !item {
            rep + "You cannot get that!!\n"@
        } else if d == Distance::Unknown && !item {
            rep
        } else {
            self.spec_move_report(idx, Some(LOC_PLAYER))
        }
    }

    /// Picks up an item: only an entity flagged as an item, sitting in reach,
    /// moves into the player's possession; everything else — a non-item at
    /// any distance included — is refused with the fitting message.
    pub fn do_get(&mut self, noun: &String) -> (r: String)
        requires
            old(self).wf(),
        ensures
            r@ == old(self).spec_get_report(noun@),
            old(self).spec_get_moves(noun@) ==> World::spec_moved(
                *old(self),
                *final(self),
                old(self).spec_visible_index(noun@),
                Some(LOC_PLAYER),
            ),
            !old(self).spec_get_moves(noun@) ==> final(self).objects@ =~= old(self).objects@,
            final(self).wf(),
            old(self).player_placed() ==> final(self).player_placed(),
    {
        let (output, obj_opt) = self.object_visible(noun);
        let obj_item = match obj_opt {
            Option::Some(a) => match self.objects[a].item {
                Option::Some(b) => b,
                Option::None => false,
            },
            Option::None => false,
        };
        let player_to_obj = self.get_distance(Option::Some(LOC_PLAYER), obj_opt);

        if player_to_obj == Distance::Player {
            let mut m = output;
            m.append("Invalid!! You cannot get that!!");
            m
        } else if player_to_obj == Distance::Held && obj_opt.is_some() && obj_item {
            let mut m = output;
            m.append("You already have: ");
            m.append(self.objects[obj_opt.unwrap()].description.as_str());
            m.append(".\n");
            m
        } else if player_to_obj == Distance::OverThere && obj_item {
            let mut m = output;
            m.append("The item is not here. Try elsewhere!!\n");
            m
        } else if (player_to_obj == Distance::OverThere || player_to_obj == Distance::Here
            || player_to_obj == Distance::Held || player_to_obj == Distance::Location)
            && !obj_item {
            let mut m = output;
            m.append("You cannot get that!!\n");
            m
        } else if player_to_obj == Distance::Unknown && !obj_item {
            output
        } else {
            self.move_object(obj_opt, Option::Some(LOC_PLAYER))
        }
    }

    /// Drops a held object into the player's current room.
    pub fn do_drop(&mut self, noun: &String) -> (r: String)
        requires
            old(self).wf(),
        ensures
            r@ == old(self).spec_possession_report(Some(LOC_PLAYER), "drop"@, noun@) + old(
                self,
            ).spec_move_report(
                old(self).spec_possession_index(Some(LOC_PLAYER), lower_of(noun@)),
                old(self).objects@[LOC_PLAYER as int].location,
            ),
            World::spec_moved(
                *old(self),
                *final(self),
                old(self).spec_possession_index(Some(LOC_PLAYER), lower_of(noun@)),
                old(self).objects@[LOC_PLAYER as int].location,
            ),
            final(self).wf(),
            old(self).player_placed() ==> final(self).player_placed(),
    {
        let (output, object_index) = self.get_possession(
            Option::Some(LOC_PLAYER),
            Command::Drop(String::from_str("drop")),
            noun,
        );
        let player_loc = self.objects[LOC_PLAYER].location;
        let mut m = output;
        let moved = self.move_object(object_index, player_loc);
        m.append(moved.as_str());
        m
    }

    /// Asks whoever shares the player's room for an object: on success the
    /// object moves to the player.
    pub fn do_ask(&mut self, noun: &String) -> (r: String)
        requires
            old(self).wf(),
        ensures
            ({
                let from = old(self).spec_first_at(
                    old(self).objects@[LOC_PLAYER as int].location,
                    old(self).num_objects(),
                );
                &&& r@ == old(self).spec_possession_report(from, "ask"@, noun@) + old(
                    self,
                ).spec_move_report(
                    old(self).spec_possession_index(from, lower_of(noun@)),
                    Some(LOC_PLAYER),
                )
                &&& World::spec_moved(
                    *old(self),
                    *final(self),
                    old(self).spec_possession_index(from, lower_of(noun@)),
                    Some(LOC_PLAYER),
                )
            }),
            final(self).wf(),
            old(self).player_placed() ==> final(self).player_placed(),
    {
        let player_loc = self.player_here();
        let (output, object_index) = self.get_possession(
            player_loc,
            Command::Ask(String::from_str("ask")),
            noun,
        );
        let mut m = output;
        let moved = self.move_object(object_index, Option::Some(LOC_PLAYER));
        m.append(moved.as_str());
        m
    }

    /// Gives an object: possession resolves against whoever shares the
    /// player's room, and on success the object moves to the player — the
    /// transfer direction this engine has always had.
    pub fn do_give(&mut self, noun: &String) -> (r: String)
        requires
            old(self).wf(),
        ensures
            ({
                let from = old(self).spec_first_at(
                    old(self).objects@[LOC_PLAYER as int].location,
                    old(self).num_objects(),
                );
                &&& r@ == old(self).spec_possession_report(from, "give"@, noun@) + old(
                    self,
                ).spec_move_report(
                    old(self).spec_possession_index(from, lower_of(noun@)),
                    Some(LOC_PLAYER),
                )
                &&& World::spec_moved(
                    *old(self),
                    *final(self),
                    old(self).spec_possession_index(from, lower_of(noun@)),
                    Some(LOC_PLAYER),
                )
            }),
            final(self).wf(),
            old(self).player_placed() ==> final(self).player_placed(),
    {
        let player_loc = self.player_here();
        let (output, object_index) = self.get_possession(
            player_loc,
            Command::Give(String::from_str("give")),
            noun,
        );
        let mut m = output;
        let moved = self.move_object(object_index, Option::Some(LOC_PLAYER));
        m.append(moved.as_str());
        m
    }

    /// Whether `do_consume` accepts the target: it exists and carries the
    /// consumable flag.
    pub open spec fn spec_consumes(self, obj_opt: Option<usize>) -> bool {
        obj_opt matches Some(i) && self.objects@[i as int].consumable == Some(true)
    }

    /// The player's health after consuming the entity: the sum of both health
    /// attributes, each taken as zero when absent.
    pub open spec fn spec_consume_health(self, i: int) -> int {
        or_zero(self.objects@[LOC_PLAYER as int].health) + or_zero(self.objects@[i].health)
    }

    /// Consumes a consumable: the player's health grows by the entity's
    /// health attribute and the entity leaves play (its container is
    /// cleared), so it is never listed again.
    pub fn do_consume(&mut self, obj_opt: Option<usize>) -> (r: String)
        requires
            old(self).wf(),
            old(self).valid_ref(obj_opt),
            old(self).spec_consumes(obj_opt) ==> old(self).spec_consume_health(
                obj_opt->0 as int,
            ) <= u64::MAX,
        ensures
            old(self).spec_consumes(obj_opt) ==> ({
                let i = obj_opt->0 as int;
                let new_health = old(self).spec_consume_health(i) as u64;
                &&& r@ == "You have consumed the item. Your health has increased to "@
                    + spec_decimal(new_health as int) + "\n"@
                &&& final(self).objects@[i].location is None
                &&& final(self).objects@[LOC_PLAYER as int].health == Some(new_health)
                &&& (i != LOC_PLAYER ==> final(self).objects@ =~= old(self).objects@.update(
                    i,
                    Object { location: None, ..old(self).objects@[i] },
                ).update(
                    LOC_PLAYER as int,
                    Object { health: Some(new_health), ..old(self).objects@[LOC_PLAYER as int] },
                ))
                &&& (i == LOC_PLAYER ==> final(self).objects@ =~= old(self).objects@.update(
                    i,
                    Object { location: None, health: Some(new_health), ..old(self).objects@[i] },
                ))
            }),
            !old(self).spec_consumes(obj_opt) ==> final(self).objects@ =~= old(self).objects@
                && r@ == "You cannot consume that!!\n"@,
            final(self).wf(),
    {
        let consumes = match obj_opt {
            Option::Some(i) => self.objects[i].consumable == Option::Some(true),
            Option::None => false,
        };
        if consumes {
            let i = obj_opt.unwrap();
            let gain = match self.objects[i].health {
                Option::Some(h) => h,
                Option::None => 0,
            };
            let cur = match self.objects[LOC_PLAYER].health {
                Option::Some(h) => h,
                Option::None => 0,
            };
            let new_health = cur + gain;
            self.objects[i].location = Option::None;
            self.objects[LOC_PLAYER].health = Option::Some(new_health);
            let mut m = String::from_str(
                "You have consumed the item. Your health has increased to ",
            );
            m.append(u64_to_string(new_health).as_str());
            m.append("\n");
            m
        } else {
            String::from_str("You cannot consume that!!\n")
        }
    }

    /// Shows the command vocabulary.
    pub fn display_help(&self) -> (r: String)
        ensures
            r@ == spec_help_text(),
    {
        String::from_str(
            "Available commands are\n
        look\n
        attack <enemy name>\n
        go <location>\n
        get <item name>\n
        drop <item name>\n
        inventory \n
        quit\n
        help\n",
        )
    }

    /// Some entity's passage leads to `i`: the index names a reachable place.
    pub open spec fn spec_is_destination(self, i: int) -> bool {
        exists|j: int|
            0 <= j < self.num_objects() && (#[trigger] self.objects@[j]).destination == Some(
                i as usize,
            )
    }

    /// The map listing over the first `n` entities: every index some passage
    /// leads to, with its first alias.
    pub open spec fn spec_locations_upto(self, n: int) -> Seq<char>
        decreases n,
    {
        if n <= 0 {
            "Available locations:"@
        } else {
            let prev = self.spec_locations_upto(n - 1);
            if self.spec_is_destination(n - 1) {
                prev + spec_decimal(n - 1) + ": "@ + self.spec_label0(n - 1) + "\n"@
            } else {
                prev
            }
        }
    }

    /// The whole map listing.
    pub open spec fn spec_locations_report(self) -> Seq<char> {
        self.spec_locations_upto(self.num_objects())
    }

    /// Whether some passage leads to `index`.
    fn has_destination(&self, index: usize) -> (r: bool)
        ensures
            r == self.spec_is_destination(index as int),
    {
        let n = self.objects.len();
        let mut j: usize = 0;
        while j < n
            invariant
                n == self.num_objects(),
                j <= n,
                forall|k: int|
                    0 <= k < j ==> !((#[trigger] self.objects@[k]).destination == Some(index)),
            decreases n - j,
        {
            if self.objects[j].destination == Option::Some(index) {
                return true;
            }
            j = j + 1;
        }
        false
    }

    /// Lists every location some passage leads to, with its index.
    pub fn display_locations(&self) -> (r: String)
        requires
            self.wf(),
        ensures
            r@ == self.spec_locations_report(),
    {
        let n = self.objects.len();
        let mut result = String::from_str("Available locations:");
        let mut index: usize = 0;
        while index < n
            invariant
                n == self.num_objects(),
                index <= n,
                self.wf(),
                result@ == self.spec_locations_upto(index as int),
            decreases n - index,
        {
            if self.has_destination(index) {
                result.append(u64_to_string(index as u64).as_str());
                result.append(": ");
                result.append(self.objects[index].label[0].as_str());
                result.append("\n");
            }
            index = index + 1;
        }
        result
    }

    /// Dispatches one intent to its handler and returns the report. An attack
    /// intent only decides entry into combat here; the caller drives the
    /// combat rounds.
    pub fn update_state(&mut self, command: &Command) -> (r: String)
        requires
            old(self).wf(),
            old(self).player_placed(),
        ensures
            ({
                let w1 = *old(self);
                let w2 = *final(self);
                match command {
                    Command::Look(noun) => w2.objects@ =~= w1.objects@ && (noun@.len() == 0 ==> r@
                        == w1.spec_look_report()) && (noun@.len() != 0 ==> r@
                        == "Invalid command!!\n"@),
                    Command::Go(noun) => {
                        &&& (w1.spec_go_dest(noun@) matches Some(dest) ==> w2.objects@
                            =~= w1.objects@.update(
                            LOC_PLAYER as int,
                            Object { location: Some(dest), ..w1.objects@[LOC_PLAYER as int] },
                        ) && r@ == "OK.\n"@ + w2.spec_look_report())
                        &&& (w1.spec_go_dest(noun@) is None ==> w2.objects@ =~= w1.objects@ && r@
                            == w1.spec_go_fail_report(noun@))
                    },
                    Command::Quit => w2.objects@ =~= w1.objects@ && r@
                        == "Quitting.\nThank you for playing!"@,
                    Command::Ask(noun) => {
                        let from = w1.spec_first_at(
                            w1.objects@[LOC_PLAYER as int].location,
                            w1.num_objects(),
                        );
                        &&& r@ == w1.spec_possession_report(from, "ask"@, noun@)
                            + w1.spec_move_report(
                            w1.spec_possession_index(from, lower_of(noun@)),
                            Some(LOC_PLAYER),
                        )
                        &&& World::spec_moved(
                            w1,
                            w2,
                            w1.spec_possession_index(from, lower_of(noun@)),
                            Some(LOC_PLAYER),
                        )
                    },
                    Command::Attack(noun) => w2.objects@ =~= w1.objects@ && r@
                        == w1.spec_attack_report(noun@),
                    Command::Drop(noun) => {
                        &&& r@ == w1.spec_possession_report(Some(LOC_PLAYER), "drop"@, noun@)
                            + w1.spec_move_report(
                            w1.spec_possession_index(Some(LOC_PLAYER), lower_of(noun@)),
                            w1.objects@[LOC_PLAYER as int].location,
                        )
                        &&& World::spec_moved(
                            w1,
                            w2,
                            w1.spec_possession_index(Some(LOC_PLAYER), lower_of(noun@)),
                            w1.objects@[LOC_PLAYER as int].location,
                        )
                    },
                    Command::Get(noun) => {
                        &&& r@ == w1.spec_get_report(noun@)
                        &&& (w1.spec_get_moves(noun@) ==> World::spec_moved(
                            w1,
                            w2,
                            w1.spec_visible_index(noun@),
                            Some(LOC_PLAYER),
                        ))
                        &&& (!w1.spec_get_moves(noun@) ==> w2.objects@ =~= w1.objects@)
                    },
                    Command::Give(noun) => {
                        let from = w1.spec_first_at(
                            w1.objects@[LOC_PLAYER as int].location,
                            w1.num_objects(),
                        );
                        &&& r@ == w1.spec_possession_report(from, "give"@, noun@)
                            + w1.spec_move_report(
                            w1.spec_possession_index(from, lower_of(noun@)),
                            Some(LOC_PLAYER),
                        )
                        &&& World::spec_moved(
                            w1,
                            w2,
                            w1.spec_possession_index(from, lower_of(noun@)),
                            Some(LOC_PLAYER),
                        )
                    },
                    Command::Inventory => w2.objects@ =~= w1.objects@ && r@
                        == w1.spec_inventory_report(),
                    Command::Help => w2.objects@ =~= w1.objects@ && r@ == spec_help_text(),
                    Command::WorldMap => w2.objects@ =~= w1.objects@ && r@
                        == w1.spec_locations_report(),
                    Command::Unknown(_) => w2.objects@ =~= w1.objects@ && r@
                        == "Invalid command!!\n"@ + spec_help_text(),
                }
            }),
            final(self).wf(),
            final(self).player_placed(),
    {
        match command {
            Command::Look(noun) => self.do_look(noun.as_str()),
            Command::Go(noun) => self.do_go(noun),
            Command::Quit => String::from_str("Quitting.\nThank you for playing!"),
            Command::Ask(noun) => self.do_ask(noun),
            Command::Attack(noun) => {
                let outcome = self.do_attack(noun);
                outcome.0
            },
            Command::Drop(noun) => self.do_drop(noun),
            Command::Get(noun) => self.do_get(noun),
            Command::Give(noun) => self.do_give(noun),
            Command::Inventory => self.do_inventory(),
            Command::Help => self.display_help(),
            Command::WorldMap => self.display_locations(),
            Command::Unknown(_) => {
                let mut m = String::from_str("Invalid command!!\n");
                let help = self.display_help();
                m.append(help.as_str());
                m
            },
        }
    }
}

} // verus!
