//! The combat engine: entry check for attacking an enemy, and one round of
//! the nested turn loop. The caller reads each sub-command line, hands it to
//! `do_use`, and stops on `Fled` or `Victory` or when the player is defeated.

use vstd::prelude::*;

use crate::parse::{spec_second, spec_verb, split_verb_noun};
use crate::text::{spec_decimal, str_eq, u64_to_string};
use crate::types::{or_zero, sat_sub, CombatOutcome, Distance, Object, LOC_PLAYER};
use crate::world::World;

verus! {

/// Relies on rand::Rng::gen_range over `0..n`: it panics on an empty range,
/// and otherwise returns a uniformly distributed value in `[0, n)`.
#[verifier::external_body]
fn rand_below(n: u64) -> (r: u64)
    requires
        n >= 1,
    ensures
        r < n,
{
    let mut rng = rand::thread_rng();
    rand::Rng::gen_range(&mut rng, 0..n)
}

impl World {
    /// What attacking `noun` reports: the resolution failure, a refusal for a
    /// non-enemy, "already dead" for a spent enemy, or the engagement line.
    pub open spec fn spec_attack_report(self, noun: Seq<char>) -> Seq<char> {
        match self.spec_visible_index(noun) {
            None => self.spec_visible_report(noun),
            Some(i) => {
                if !self.objects@[i as int].enemy {
                    "You can't attack the "@ + self.spec_label0(i as int) + ".\n"@
                } else if or_zero(self.objects@[i as int].health) == 0 {
                    "The "@ + self.spec_label0(i as int) + " is already dead.\n"@
                } else {
                    "\nYou are attacking the "@ + self.spec_label0(i as int) + ".\n"@
                }
            },
        }
    }

    /// The enemy combat engages: the resolved entity, when it is an enemy
    /// with health left.
    pub open spec fn spec_attack_target(self, noun: Seq<char>) -> Option<usize> {
        match self.spec_visible_index(noun) {
            None => None,
            Some(i) => {
                if self.objects@[i as int].enemy && or_zero(self.objects@[i as int].health) != 0 {
                    Some(i)
                } else {
                    None
                }
            },
        }
    }

    /// Decides whether attacking `noun` enters combat. Attacking an enemy with
    /// no health left reports it as already dead and mutates nothing (the
    /// receiver is shared); on engagement the caller drives the rounds with
    /// `do_use`, one sub-command line per round.
    pub fn do_attack(&self, noun: &String) -> (r: (String, Option<usize>))
        requires
            self.wf(),
        ensures
            r.0@ == self.spec_attack_report(noun@),
            r.1 == self.spec_attack_target(noun@),
            r.1 matches Some(i) ==> (i as int) < self.num_objects()
                && self.objects@[i as int].enemy && or_zero(self.objects@[i as int].health) != 0,
    {
        let (output, obj_opt) = self.object_visible(noun);
        match obj_opt {
            Option::None => (output, Option::None),
            Option::Some(obj_index) => {
                if !self.objects[obj_index].enemy {
                    let mut m = String::from_str("You can't attack the ");
                    m.append(self.objects[obj_index].label[0].as_str());
                    m.append(".\n");
                    (m, Option::None)
                } else {
                    let obj_health = match self.objects[obj_index].health {
                        Option::Some(h) => h,
                        Option::None => 0,
                    };
                    if obj_health == 0 {
                        let mut m = String::from_str("The ");
                        m.append(self.objects[obj_index].label[0].as_str());
                        m.append(" is already dead.\n");
                        (m, Option::None)
                    } else {
                        let mut m = String::from_str("\nYou are attacking the ");
                        m.append(self.objects[obj_index].label[0].as_str());
                        m.append(".\n");
                        (m, Option::Some(obj_index))
                    }
                }
            },
        }
    }

    /// The counter-attack report for a given roll: a dodge for zero, the hit
    /// and the player's new health otherwise.
    pub open spec fn spec_counter_report(self, roll: u64) -> Seq<char> {
        if roll == 0 {
            "\nYou dodged the attack"@
        } else {
            "\nYou got hit"@ + "\nYour health: "@ + spec_decimal(
                sat_sub(or_zero(self.objects@[LOC_PLAYER as int].health), roll) as int,
            )
        }
    }

    /// How the counter-attack changes the world for a given roll: a zero roll
    /// leaves it alone, any other reduces the player's health by the roll,
    /// floored at zero.
    pub open spec fn spec_counter_applied(w1: World, w2: World, roll: u64) -> bool {
        if roll == 0 {
            w2.objects@ =~= w1.objects@
        } else {
            w2.objects@ =~= w1.objects@.update(
                LOC_PLAYER as int,
                Object {
                    health: Some(sat_sub(or_zero(w1.objects@[LOC_PLAYER as int].health), roll)),
                    ..w1.objects@[LOC_PLAYER as int]
                },
            )
        }
    }

    /// Applies the enemy's counter-attack for a given roll: a draw of zero is
    /// a dodge, any other reduces the player's health by the draw, floored at
    /// zero.
    pub fn enemy_counter(&mut self, roll: u64) -> (r: String)
        requires
            old(self).wf(),
        ensures
            r@ == old(self).spec_counter_report(roll),
            World::spec_counter_applied(*old(self), *final(self), roll),
            final(self).wf(),
    {
        if roll == 0 {
            String::from_str("\nYou dodged the attack")
        } else {
            let cur = match self.objects[LOC_PLAYER].health {
                Option::Some(h) => h,
                Option::None => 0,
            };
            let newp = cur.saturating_sub(roll);
            self.objects[LOC_PLAYER].health = Option::Some(newp);
            let mut m = String::from_str("\nYou got hit");
            m.append("\nYour health: ");
            m.append(u64_to_string(newp).as_str());
            m
        }
    }

    /// What one combat round does, given the worlds before and after, the
    /// sub-command line, the enemy's carried health, the enemy's index, and
    /// the round's outcome and report. Where the enemy counters, some roll
    /// below its attack power explains the new state.
    pub open spec fn spec_use_post(
        w1: World,
        w2: World,
        msg: Seq<char>,
        obj_health: u64,
        obj_index: usize,
        outcome: CombatOutcome,
        report: Seq<char>,
    ) -> bool {
        let verb = spec_verb(msg);
        let noun = spec_second(msg);
        if verb == "run"@ {
            &&& outcome == CombatOutcome::Fled
            &&& report == "You ran away from the "@ + w1.spec_label0(obj_index as int) + ".\n"@
            &&& w2.objects@ =~= w1.objects@
        } else if verb == "inventory"@ {
            &&& outcome == CombatOutcome::Continue(obj_health)
            &&& report == w1.spec_inventory_report()
            &&& w2.objects@ =~= w1.objects@
        } else {
            match w1.spec_visible_index(noun) {
                None => {
                    &&& outcome == CombatOutcome::Continue(obj_health)
                    &&& report == w1.spec_visible_report(noun)
                    &&& w2.objects@ =~= w1.objects@
                },
                Some(w) => {
                    let held = w1.spec_distance(Some(LOC_PLAYER), Some(w)) == Distance::Held;
                    let pwr = w1.objects@[w as int].attack;
                    if held && pwr is Some {
                        let nh = sat_sub(obj_health, pwr->0);
                        let base = "You attacked the "@ + w1.spec_label0(obj_index as int)
                            + ".\nEnemy health: "@ + spec_decimal(nh as int);
                        if nh == 0 {
                            &&& outcome == CombatOutcome::Victory
                            &&& report == base + "\nYou killed the "@ + w1.spec_label0(
                                obj_index as int,
                            ) + ".\n"@
                            &&& w2.objects@ =~= w1.objects@.update(
                                obj_index as int,
                                Object { health: Some(0u64), ..w1.objects@[obj_index as int] },
                            )
                        } else {
                            let base2 = base + "\n\nThe "@ + w1.spec_label0(obj_index as int)
                                + " attacks"@;
                            let ep = or_zero(w1.objects@[obj_index as int].attack);
                            &&& outcome == CombatOutcome::Continue(nh)
                            &&& if ep == 0 {
                                report == base2 && w2.objects@ =~= w1.objects@
                            } else {
                                exists|roll: u64|
                                    roll < ep && report == base2 + w1.spec_counter_report(roll)
                                        && #[trigger] World::spec_counter_applied(w1, w2, roll)
                            }
                        }
                    } else if pwr is None {
                        &&& outcome == CombatOutcome::Continue(obj_health)
                        &&& report == "That is not a weapon!!"@
                        &&& w2.objects@ =~= w1.objects@
                    } else {
                        &&& outcome == CombatOutcome::Continue(obj_health)
                        &&& report == "You don't have a "@ + noun + ".\n"@
                        &&& w2.objects@ =~= w1.objects@
                    }
                },
            }
        }
    }

    /// One round of combat against the enemy at `obj_index`, whose health the
    /// caller carries as `obj_health`: a flee sub-command ends the fight, an
    /// inventory sub-command consumes the round, using a carried weapon deals
    /// its attack power in damage (flooring at zero and winning there), and a
    /// surviving enemy counters with a random draw below its attack power.
    pub fn do_use(&mut self, msg: &str, obj_health: u64, obj_index: usize) -> (r: (
        CombatOutcome,
        String,
    ))
        requires
            old(self).wf(),
            (obj_index as int) < old(self).num_objects(),
        ensures
            World::spec_use_post(
                *old(self),
                *final(self),
                msg@,
                obj_health,
                obj_index,
                r.0,
                r.1@,
            ),
            final(self).wf(),
    {
        let (verb, noun) = split_verb_noun(msg);
        if str_eq(verb.as_str(), "run") {
            let mut m = String::from_str("You ran away from the ");
            m.append(self.objects[obj_index].label[0].as_str());
            m.append(".\n");
            (CombatOutcome::Fled, m)
        } else if str_eq(verb.as_str(), "inventory") {
            (CombatOutcome::Continue(obj_health), self.do_inventory())
        } else {
            let (output, obj_opt) = self.object_visible(&noun);
            match obj_opt {
                Option::None => (CombatOutcome::Continue(obj_health), output),
                Option::Some(weapon_index) => {
                    let d = self.get_distance(Option::Some(LOC_PLAYER), Option::Some(weapon_index));
                    let held = d == Distance::Held;
                    let attack_pwr = self.objects[weapon_index].attack;
                    if held && attack_pwr.is_some() {
                        let pwr = attack_pwr.unwrap();
                        let new_health = obj_health.saturating_sub(pwr);
                        let mut m = String::from_str("You attacked the ");
                        m.append(self.objects[obj_index].label[0].as_str());
                        m.append(".\nEnemy health: ");
                        m.append(u64_to_string(new_health).as_str());
                        if new_health == 0 {
                            self.objects[obj_index].health = Option::Some(0);
                            m.append("\nYou killed the ");
                            m.append(self.objects[obj_index].label[0].as_str());
                            m.append(".\n");
                            (CombatOutcome::Victory, m)
                        } else {
                            m.append("\n\nThe ");
                            m.append(self.objects[obj_index].label[0].as_str());
                            m.append(" attacks");
                            let enemy_pwr = match self.objects[obj_index].attack {
                                Option::Some(p) => p,
                                Option::None => 0,
                            };
                            if enemy_pwr == 0 {
                                (CombatOutcome::Continue(new_health), m)
                            } else {
                                let roll = rand_below(enemy_pwr);
                                let suffix = self.enemy_counter(roll);
                                m.append(suffix.as_str());
                                (CombatOutcome::Continue(new_health), m)
                            }
                        }
                    } else if attack_pwr.is_none() {
                        (
                            CombatOutcome::Continue(obj_health),
                            String::from_str("That is not a weapon!!"),
                        )
                    } else {
                        let mut m = String::from_str("You don't have a ");
                        m.append(noun.as_str());
                        m.append(".\n");
                        (CombatOutcome::Continue(obj_health), m)
                    }
                },
            }
        }
    }
}

} // verus!
