use rust_in_peace::parse;
use rust_in_peace::CombatOutcome;
use rust_in_peace::Command;
use rust_in_peace::Distance;
use rust_in_peace::Object;
use rust_in_peace::World;
use rust_in_peace::LOC_BEAR;
use rust_in_peace::LOC_CAVE;
use rust_in_peace::LOC_DUNGEONS;
use rust_in_peace::LOC_FOREST;
use rust_in_peace::LOC_PLAYER;
use rust_in_peace::LOC_TAVERN;

fn scenery(label: &str, location: usize) -> Object {
    Object {
        label: vec![label.to_string()],
        description: format!("A {}.", label),
        location: Some(location),
        destination: None,
        item: Some(false),
        enemy: false,
        health: None,
        attack: None,
        consumable: None,
    }
}

#[test]
fn classify_follows_containment() {
    let world = World::new();
    // Reflexive: every entity is at distance Player from itself.
    assert_eq!(
        world.get_distance(Some(LOC_PLAYER), Some(LOC_PLAYER)),
        Distance::Player
    );
    assert_eq!(world.get_distance(Some(LOC_BEAR), Some(LOC_BEAR)), Distance::Player);
    // The sword is contained in the dungeons, so the dungeons hold it...
    assert_eq!(world.get_distance(Some(LOC_DUNGEONS), Some(6)), Distance::Held);
    // ...and the relation is not symmetric: the other way round is Location.
    assert_eq!(world.get_distance(Some(6), Some(LOC_DUNGEONS)), Distance::Location);
    // The player stands in the forest, so the north passage is Here.
    assert_eq!(world.get_distance(Some(LOC_PLAYER), Some(9)), Distance::Here);
    // The tavern lies through that passage: OverThere.
    assert_eq!(world.get_distance(Some(LOC_PLAYER), Some(LOC_TAVERN)), Distance::OverThere);
    // The bear sleeps in the cave, out of reach: NotHere.
    assert_eq!(world.get_distance(Some(LOC_PLAYER), Some(LOC_BEAR)), Distance::NotHere);
    // An absent reference is Unknown.
    assert_eq!(world.get_distance(Some(LOC_PLAYER), None), Distance::Unknown);
}

#[test]
fn resolve_two_matches_is_ambiguous() {
    let mut world = World::new();
    // Two distinct entities in the player's room share the label "rock":
    // resolution must refuse to pick one, whatever else matches.
    world.objects.push(scenery("rock", LOC_FOREST));
    world.objects.push(scenery("rock", LOC_FOREST));
    let report = world.do_get(&"rock".to_string());
    assert_eq!(report, "Please be more specific about which rock you mean.\n");
    // A third match changes nothing.
    world.objects.push(scenery("rock", LOC_FOREST));
    let report = world.do_get(&"rock".to_string());
    assert_eq!(report, "Please be more specific about which rock you mean.\n");
}

#[test]
fn get_then_drop_restores_container() {
    let mut world = World::new();
    world.objects[LOC_PLAYER].location = Some(LOC_DUNGEONS);
    let before = world.objects[6].location;
    assert_eq!(before, Some(LOC_DUNGEONS));

    let report = world.do_get(&"sword".to_string());
    assert_eq!(report, "You pick up the Sword.\n");
    assert_eq!(world.objects[6].location, Some(LOC_PLAYER));

    let report = world.do_drop(&"sword".to_string());
    assert_eq!(report, "You have dropped Sword.\n");
    assert_eq!(world.objects[6].location, before);
}

#[test]
fn consume_removes_from_inventory() {
    let mut world = World::new();
    world.objects[LOC_PLAYER].health = Some(80);
    world.objects.push(Object {
        label: vec!["Apple".to_string()],
        description: "An apple.".to_string(),
        location: Some(LOC_PLAYER),
        destination: None,
        item: Some(true),
        enemy: false,
        health: Some(10),
        attack: None,
        consumable: Some(true),
    });
    let idx = world.objects.len() - 1;
    assert!(world.do_inventory().contains("An apple."));

    let report = world.do_consume(Some(idx));
    assert_eq!(
        report,
        "You have consumed the item. Your health has increased to 90\n"
    );
    assert_eq!(world.objects[LOC_PLAYER].health, Some(90));
    assert_eq!(world.objects[idx].location, None);
    assert_eq!(
        world.do_inventory(),
        "You currently do not have anything in your inventory.\n"
    );
}

#[test]
fn consume_refuses_non_consumable() {
    let mut world = World::new();
    let report = world.do_consume(Some(6));
    assert_eq!(report, "You cannot consume that!!\n");
    assert_eq!(world.objects[6].location, Some(LOC_DUNGEONS));
}

#[test]
fn attack_dead_enemy_mutates_nothing() {
    let mut world = World::new();
    world.objects[LOC_PLAYER].location = Some(LOC_CAVE);
    world.objects[LOC_BEAR].health = Some(0);

    let (report, engaged) = world.do_attack(&"bear".to_string());
    assert_eq!(report, "The Bear is already dead.\n");
    assert!(engaged.is_none());
    assert_eq!(world.objects[LOC_BEAR].health, Some(0));
    assert_eq!(world.objects[LOC_BEAR].location, Some(LOC_CAVE));
    assert_eq!(world.objects[LOC_PLAYER].health, Some(100));
}

#[test]
fn attack_engages_living_enemy() {
    let mut world = World::new();
    world.objects[LOC_PLAYER].location = Some(LOC_CAVE);
    let (report, engaged) = world.do_attack(&"bear".to_string());
    assert_eq!(report, "\nYou are attacking the Bear.\n");
    assert_eq!(engaged, Some(LOC_BEAR));

    let (_, refused) = world.do_attack(&"bones".to_string());
    assert!(refused.is_none());
}

#[test]
fn weapon_round_deals_its_attack_power() {
    let mut world = World::new();
    world.objects[LOC_PLAYER].location = Some(LOC_CAVE);
    world.objects[6].location = Some(LOC_PLAYER); // carry the sword (attack 20)

    let (outcome, report) = world.do_use("use sword", 100, LOC_BEAR);
    assert_eq!(outcome, CombatOutcome::Continue(80));
    assert!(report.starts_with("You attacked the Bear.\nEnemy health: 80"));
}

#[test]
fn weapon_round_clamps_at_zero_and_wins() {
    let mut world = World::new();
    world.objects[LOC_PLAYER].location = Some(LOC_CAVE);
    world.objects[6].location = Some(LOC_PLAYER);

    let (outcome, report) = world.do_use("use sword", 15, LOC_BEAR);
    assert_eq!(outcome, CombatOutcome::Victory);
    assert!(report.contains("Enemy health: 0"));
    assert!(report.contains("You killed the Bear.\n"));
    assert_eq!(world.objects[LOC_BEAR].health, Some(0));
    // No counter-attack after the kill.
    assert_eq!(world.objects[LOC_PLAYER].health, Some(100));
}

#[test]
fn counter_roll_below_one_is_a_dodge() {
    let mut world = World::new();
    world.objects[LOC_PLAYER].location = Some(LOC_CAVE);
    world.objects[6].location = Some(LOC_PLAYER);
    // An enemy with attack power 1 can only roll 0: always a dodge.
    world.objects[LOC_BEAR].attack = Some(1);

    let (outcome, report) = world.do_use("use sword", 100, LOC_BEAR);
    assert_eq!(outcome, CombatOutcome::Continue(80));
    assert!(report.ends_with("\nYou dodged the attack"));
    assert_eq!(world.objects[LOC_PLAYER].health, Some(100));
}

#[test]
fn combat_round_side_commands() {
    let mut world = World::new();
    world.objects[LOC_PLAYER].location = Some(LOC_CAVE);

    let (outcome, report) = world.do_use("run", 100, LOC_BEAR);
    assert_eq!(outcome, CombatOutcome::Fled);
    assert_eq!(report, "You ran away from the Bear.\n");

    let (outcome, report) = world.do_use("inventory", 100, LOC_BEAR);
    assert_eq!(outcome, CombatOutcome::Continue(100));
    assert_eq!(report, "You currently do not have anything in your inventory.\n");

    // Bones lie in the cave but are not carried.
    let (outcome, report) = world.do_use("use bones", 100, LOC_BEAR);
    assert_eq!(outcome, CombatOutcome::Continue(100));
    assert_eq!(report, "You don't have a bones.\n");

    // The bear is visible but carries no attack power as a weapon would.
    world.objects[LOC_BEAR].attack = None;
    let (outcome, report) = world.do_use("use bear", 100, LOC_BEAR);
    assert_eq!(outcome, CombatOutcome::Continue(100));
    assert_eq!(report, "That is not a weapon!!");
}

#[test]
fn parse_keeps_multi_word_nouns() {
    match parse("go rusty sword".to_string()) {
        Command::Go(noun) => assert_eq!(noun, "rusty sword"),
        _ => panic!("expected a go intent"),
    }
    // Whitespace runs collapse to single spaces.
    match parse("get  rusty   sword ".to_string()) {
        Command::Get(noun) => assert_eq!(noun, "rusty sword"),
        _ => panic!("expected a get intent"),
    }
}

#[test]
fn parse_lowercases_and_trims() {
    match parse("GO North".to_string()) {
        Command::Go(noun) => assert_eq!(noun, "north"),
        _ => panic!("expected a go intent"),
    }
    assert!(matches!(parse("quit".to_string()), Command::Quit));
    assert!(matches!(parse("inventory now".to_string()), Command::Inventory));
    assert!(matches!(parse("help".to_string()), Command::Help));
    assert!(matches!(parse("map".to_string()), Command::WorldMap));
    match parse("  frobnicate the thing  ".to_string()) {
        Command::Unknown(line) => assert_eq!(line, "frobnicate the thing"),
        _ => panic!("expected an unknown intent"),
    }
    match parse("".to_string()) {
        Command::Unknown(line) => assert_eq!(line, ""),
        _ => panic!("expected an unknown intent"),
    }
    // An unknown intent preserves the raw text, trimmed but not lower-cased.
    match parse("  Frobnicate The THING  ".to_string()) {
        Command::Unknown(line) => assert_eq!(line, "Frobnicate The THING"),
        _ => panic!("expected an unknown intent"),
    }
}

#[test]
fn get_refuses_held_non_item() {
    let mut world = World::new();
    // The player somehow holds a piece of scenery: getting it is refused, and
    // it stays where it is.
    world.objects.push(scenery("charm", LOC_PLAYER));
    let idx = world.objects.len() - 1;
    assert_eq!(world.do_get(&"charm".to_string()), "You cannot get that!!\n");
    assert_eq!(world.objects[idx].location, Some(LOC_PLAYER));
}

#[test]
fn game_over_needs_enemies() {
    let mut world = World::new();
    // A world without enemies is not over while the player lives.
    for o in world.objects.iter_mut() {
        o.enemy = false;
    }
    assert!(!world.game_over());
    world.objects[LOC_PLAYER].health = Some(0);
    assert!(world.game_over());
}

#[test]
fn go_north_reaches_the_tavern() {
    let mut world = World::new();
    assert_eq!(world.objects[LOC_PLAYER].location, Some(LOC_FOREST));

    let command = parse("go north".to_string());
    let report = world.update_state(&command);
    assert_eq!(world.objects[LOC_PLAYER].location, Some(LOC_TAVERN));
    assert!(report.starts_with("OK.\n"));
    assert!(report.contains("The tavern is empty. But the fire is still burning in the fireplace."));

    // The tavern has no north passage: a dead end, and the player stays put.
    let command = parse("go north".to_string());
    let report = world.update_state(&command);
    assert_eq!(report, "There is no other path in that direction.");
    assert_eq!(world.objects[LOC_PLAYER].location, Some(LOC_TAVERN));
}

#[test]
fn resolution_failures_are_reported() {
    let mut world = World::new();
    // A word that names nothing anywhere.
    assert_eq!(world.do_get(&"xyzzy".to_string()), "Invalid command!!");
    // Something that exists, but not here.
    assert_eq!(world.do_get(&"bear".to_string()), "You don't see any 'bear' here.\n");
    // Getting yourself.
    assert_eq!(
        world.do_get(&"player".to_string()),
        "Invalid!! You cannot get that!!"
    );
    // Scenery is not an item.
    assert_eq!(world.do_get(&"west".to_string()), "You cannot get that!!\n");
    // Asking for something the addressed entity does not hold.
    assert!(world
        .do_ask(&"sword".to_string())
        .contains("You are not holding any sword.\n"));
}

#[test]
fn labels_match_case_insensitively() {
    let mut world = World::new();
    world.objects[LOC_PLAYER].location = Some(LOC_DUNGEONS);
    let report = world.do_get(&"SWORD".to_string());
    assert_eq!(report, "You pick up the Sword.\n");
    assert!(world.do_inventory().contains("A rusty sword."));
}

#[test]
fn map_lists_every_destination() {
    let world = World::new();
    assert_eq!(
        world.display_locations(),
        "Available locations:0: Forest\n1: Dungeons\n2: Cave\n3: Tavern\n"
    );
}

#[test]
fn give_moves_the_object_to_the_player() {
    let mut world = World::new();
    // The player carries a gem and gives it away: the engine has always moved
    // the object to the player, even for give, so it stays in hand.
    world.objects.push(Object {
        label: vec!["Gem".to_string()],
        description: "A shiny gem.".to_string(),
        location: Some(LOC_PLAYER),
        destination: None,
        item: Some(true),
        enemy: false,
        health: None,
        attack: None,
        consumable: None,
    });
    let idx = world.objects.len() - 1;
    let report = world.do_give(&"gem".to_string());
    assert_eq!(world.objects[idx].location, Some(LOC_PLAYER));
    assert_eq!(report, "You got Gem from Player.\n");

    // Giving something nobody here holds is refused.
    let report = world.do_give(&"sword".to_string());
    assert_eq!(report, "You are not holding any sword.\n");
    assert_eq!(world.objects[6].location, Some(LOC_DUNGEONS));
}

#[test]
fn remaining_failure_reports() {
    let mut world = World::new();

    // Already carrying the item.
    world.objects[6].location = Some(LOC_PLAYER);
    assert_eq!(
        world.do_get(&"sword".to_string()),
        "You already have: A rusty sword..\n"
    );
    world.objects[6].location = Some(LOC_DUNGEONS);

    // Dropping something that names nothing anywhere.
    assert_eq!(
        world.do_drop(&"xyzzy".to_string()),
        "Please use correct command for: drop.\n"
    );

    // Asking an entity for itself.
    assert_eq!(
        world.do_ask(&"player".to_string()),
        "It is illegal to do this: Player.\n"
    );

    // Two held objects share a label: dropping either is ambiguous.
    world.objects.push(scenery("rock", LOC_PLAYER));
    world.objects.push(scenery("rock", LOC_PLAYER));
    assert_eq!(
        world.do_drop(&"rock".to_string()),
        "Please be more specific about which rock you want to drop.\n"
    );
}

#[test]
fn move_object_reports() {
    let mut world = World::new();

    // Moving nothing says nothing.
    assert_eq!(world.move_object(None, Some(LOC_PLAYER)), "");

    // Moving into another container.
    assert_eq!(world.move_object(Some(6), Some(LOC_CAVE)), "You put Sword in Cave.\n");
    assert_eq!(world.objects[6].location, Some(LOC_CAVE));

    // An entity out of play cannot be taken.
    world.objects[6].location = None;
    assert_eq!(
        world.move_object(Some(6), Some(LOC_PLAYER)),
        "You cannot get that!!\n"
    );
    assert_eq!(world.objects[6].location, None);

    // With nowhere to put it, nothing moves.
    world.objects[6].location = Some(LOC_PLAYER);
    assert_eq!(world.move_object(Some(6), None), "No one is present here to give.\n");
    assert_eq!(world.objects[6].location, Some(LOC_PLAYER));
}

#[test]
fn item_reachable_only_through_a_passage() {
    let mut world = World::new();
    // A passage in the forest leads straight to a relic: the relic classifies
    // as OverThere, and getting it is refused with the elsewhere message.
    world.objects.push(Object {
        label: vec!["Relic".to_string()],
        description: "An old relic.".to_string(),
        location: Some(LOC_TAVERN),
        destination: None,
        item: Some(true),
        enemy: false,
        health: None,
        attack: None,
        consumable: None,
    });
    let relic = world.objects.len() - 1;
    world.objects.push(Object {
        label: vec!["Shrine".to_string()],
        description: "A shrine path.".to_string(),
        location: Some(LOC_FOREST),
        destination: Some(relic),
        item: Some(false),
        enemy: false,
        health: None,
        attack: None,
        consumable: None,
    });
    assert_eq!(
        world.get_distance(Some(LOC_PLAYER), Some(relic)),
        Distance::OverThere
    );
    assert_eq!(
        world.do_get(&"relic".to_string()),
        "The item is not here. Try elsewhere!!\n"
    );
    assert_eq!(world.objects[relic].location, Some(LOC_TAVERN));
}
