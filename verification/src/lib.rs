//! Core of a small text-adventure engine: a containment graph of entities,
//! a distance classifier, a label disambiguator, a command interpreter,
//! action handlers, and a turn-based combat step function.

pub mod actions;
pub mod combat;
pub mod laws;
pub mod parse;
pub mod text;
pub mod types;
pub mod world;

pub use types::AmbiguousOption;
pub use types::Command;
pub use types::CombatOutcome;
pub use types::Distance;
pub use types::Object;
pub use types::LOC_BANDITS;
pub use types::LOC_BEAR;
pub use types::LOC_CAVE;
pub use types::LOC_DUNGEONS;
pub use types::LOC_FOREST;
pub use types::LOC_PLAYER;
pub use types::LOC_TAVERN;
pub use types::LOC_TROLL;
pub use parse::parse;
pub use parse::parse_line;
pub use world::World;
