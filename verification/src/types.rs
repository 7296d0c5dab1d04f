//! The domain types: distance classes, command intents, resolution outcomes,
//! and the entity record.

use vstd::prelude::*;

verus! {

/// Index of the forest room in the default world.
pub const LOC_FOREST: usize = 0;
/// Index of the dungeons room in the default world.
pub const LOC_DUNGEONS: usize = 1;
/// Index of the cave room in the default world.
pub const LOC_CAVE: usize = 2;
/// Index of the tavern room in the default world.
pub const LOC_TAVERN: usize = 3;
/// Index of the distinguished player entity.
pub const LOC_PLAYER: usize = 4;
/// Index of the bear enemy in the default world.
pub const LOC_BEAR: usize = 5;
/// Index of the troll enemy in the default world.
pub const LOC_TROLL: usize = 19;
/// Index of the bandits enemy in the default world.
pub const LOC_BANDITS: usize = 20;

/// The seven-level reachability category between two entities, in increasing
/// order of "farness".
#[derive(PartialOrd, Ord, PartialEq, Eq, Structural, Debug, Clone, Copy)]
pub enum Distance {
    Player,
    Held,
    Location,
    Here,
    OverThere,
    NotHere,
    Unknown,
}

/// A command intent: a verb from the fixed vocabulary together with the noun
/// phrase that followed it, or `Unknown` carrying the whole trimmed line.
pub enum Command {
    Ask(String),
    Drop(String),
    Get(String),
    Attack(String),
    Give(String),
    Look(String),
    Go(String),
    Unknown(String),
    Inventory,
    Quit,
    Help,
    WorldMap,
}

/// Outcome of resolving a label: no match, exactly one match, or several.
#[derive(PartialOrd, Ord, PartialEq, Eq, Debug)]
pub enum AmbiguousOption<T> {
    Nothing,
    One(T),
    Ambiguous,
}

/// What one combat round decided: the player fled, the enemy fell, or the
/// fight goes on with the enemy at the carried health.
#[derive(PartialEq, Eq, Debug, Clone, Copy)]
pub enum CombatOutcome {
    Fled,
    Victory,
    Continue(u64),
}

/// The value of an optional numeric attribute, taking absence as zero.
pub open spec fn or_zero(h: Option<u64>) -> u64 {
    match h {
        Some(v) => v,
        None => 0,
    }
}

/// Subtraction floored at zero: health never goes negative.
pub open spec fn sat_sub(a: u64, b: u64) -> u64 {
    if b >= a {
        0
    } else {
        (a - b) as u64
    }
}

/// One entity of the world: a room, item, actor, or passage.
///
/// `location` is the index of the entity's immediate container (`None` for a
/// top-level room or for an entity removed from play); `destination`, present
/// only on passages, is the room reached by traversing the passage.
pub struct Object {
    pub label: Vec<String>,
    pub description: String,
    pub location: Option<usize>,
    pub destination: Option<usize>,
    pub item: Option<bool>,
    pub enemy: bool,
    pub health: Option<u64>,
    pub attack: Option<u64>,
    pub consumable: Option<bool>,
}

/// Rank of a distance class in the total "farness" order.
pub open spec fn dist_rank(d: Distance) -> int {
    match d {
        Distance::Player => 0,
        Distance::Held => 1,
        Distance::Location => 2,
        Distance::Here => 3,
        Distance::OverThere => 4,
        Distance::NotHere => 5,
        Distance::Unknown => 6,
    }
}

/// The rank of each distance class as an executable value.
pub fn distance_rank(d: Distance) -> (r: u8)
    ensures
        r as int == dist_rank(d),
{
    match d {
        Distance::Player => 0,
        Distance::Held => 1,
        Distance::Location => 2,
        Distance::Here => 3,
        Distance::OverThere => 4,
        Distance::NotHere => 5,
        Distance::Unknown => 6,
    }
}

/// Total-order comparison on distance classes, used by handlers to bound how
/// far a noun may resolve.
pub fn distance_le(a: Distance, b: Distance) -> (r: bool)
    ensures
        r == (dist_rank(a) <= dist_rank(b)),
{
    distance_rank(a) <= distance_rank(b)
}

/// The verb that names a command in a report, as the vocabulary spells it.
pub open spec fn spec_command_verb(c: &Command) -> Seq<char> {
    match c {
        Command::Ask(_) => "ask"@,
        Command::Drop(_) => "drop"@,
        Command::Get(_) => "get"@,
        Command::Attack(_) => "attack"@,
        Command::Give(_) => "give"@,
        Command::Go(_) => "go"@,
        Command::Inventory => "inventory"@,
        Command::Look(_) => "look"@,
        Command::Quit => "quit"@,
        Command::Unknown(_) => "unknown"@,
        Command::Help => "help"@,
        Command::WorldMap => "help"@,
    }
}

/// The verb that names a command in a report.
pub fn command_verb(c: &Command) -> (r: &'static str)
    ensures
        r@ == spec_command_verb(c),
{
    match c {
        Command::Ask(_) => "ask",
        Command::Drop(_) => "drop",
        Command::Get(_) => "get",
        Command::Attack(_) => "attack",
        Command::Give(_) => "give",
        Command::Go(_) => "go",
        Command::Inventory => "inventory",
        Command::Look(_) => "look",
        Command::Quit => "quit",
        Command::Unknown(_) => "unknown",
        Command::Help => "help",
        Command::WorldMap => "help",
    }
}

} // verus!
