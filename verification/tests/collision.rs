use planet_defense::bag::DiceEvent;
use planet_defense::collision::{Command, Contact, Impact};
use planet_defense::config::Config;
use planet_defense::dice::DiceNumber;
use planet_defense::geometry::{Offset, Point};
use planet_defense::scene::{Body, Power, Role, Scene};

fn at(x: i32, y: i32) -> Point {
    Point { x, y }
}

fn pair(first: u64, second: u64) -> Contact {
    Contact { first, second }
}

/// Planet 0 at the origin; asteroids 1 and 2; ship 10 bumps, ship 11 destroys;
/// die 20 lies on the ground.
fn arena() -> Scene {
    let mut scene = Scene::new(0, at(0, 0));
    for body in [
        Body { id: 1, position: at(100, 101), role: Role::Asteroid },
        Body { id: 2, position: at(-30, 40), role: Role::Asteroid },
        Body { id: 10, position: at(100, 100), role: Role::Ship { power: Power::Bump, target: None } },
        Body {
            id: 11,
            position: at(100, -100),
            role: Role::Ship { power: Power::Destroy, target: Some(1) },
        },
        Body { id: 20, position: at(5, 5), role: Role::Loot { face: DiceNumber::Two, half_size: 25 } },
    ] {
        assert!(scene.insert(body));
    }
    scene
}

#[test]
fn an_asteroid_on_the_planet_is_a_planet_hit() {
    let scene = arena();
    assert_eq!(scene.classify(pair(0, 1)), Impact::PlanetHit { asteroid: 1 });
    assert_eq!(scene.classify(pair(1, 0)), Impact::PlanetHit { asteroid: 1 });
    assert_eq!(scene.classify(pair(2, 0)), Impact::PlanetHit { asteroid: 2 });
}

#[test]
fn a_bumping_ship_on_an_asteroid_is_a_bump() {
    let scene = arena();
    let bump = Impact::Bumped { ship: 10, asteroid: 1, direction: Offset { dx: 0, dy: 1 } };
    assert_eq!(scene.classify(pair(10, 1)), bump);
    assert_eq!(scene.classify(pair(1, 10)), bump);
    assert_eq!(
        scene.classify(pair(2, 10)),
        Impact::Bumped { ship: 10, asteroid: 2, direction: Offset { dx: -130, dy: -60 } }
    );
}

#[test]
fn a_destroying_ship_on_an_asteroid_is_a_destruction() {
    let scene = arena();
    let destroyed = Impact::Destroyed { ship: 11, asteroid: 2, position: at(-30, 40) };
    assert_eq!(scene.classify(pair(11, 2)), destroyed);
    assert_eq!(scene.classify(pair(2, 11)), destroyed);
}

#[test]
fn every_other_pair_is_ignored() {
    let scene = arena();
    for (a, b) in [
        (0, 0),
        (0, 10),
        (10, 0),
        (0, 20),
        (10, 11),
        (11, 10),
        (1, 2),
        (2, 1),
        (1, 1),
        (1, 20),
        (20, 1),
        (10, 20),
        (11, 20),
        (1, 99),
        (99, 1),
        (0, 99),
        (98, 99),
        (10, 10),
    ] {
        assert_eq!(scene.classify(pair(a, b)), Impact::Ignored);
        assert_eq!(scene.classify_ordered(a, b), Impact::Ignored);
    }
}

#[test]
fn an_ordered_contact_wants_the_asteroid_second() {
    let scene = arena();
    assert_eq!(scene.classify_ordered(0, 1), Impact::PlanetHit { asteroid: 1 });
    assert_eq!(scene.classify_ordered(1, 0), Impact::Ignored);
    assert_eq!(scene.classify_ordered(1, 11), Impact::Ignored);
    assert_eq!(
        scene.classify_ordered(11, 1),
        Impact::Destroyed { ship: 11, asteroid: 1, position: at(100, 101) }
    );
}

#[test]
fn a_planet_hit_removes_the_asteroid_and_costs_a_die() {
    let config = Config::default();
    let mut commands = vec![];
    let mut events = vec![DiceEvent::Owned(DiceNumber::One)];
    Impact::PlanetHit { asteroid: 1 }.carry_out(&config, DiceNumber::Four, &mut commands, &mut events);
    assert_eq!(commands, vec![Command::Despawn { entity: 1 }]);
    assert_eq!(events, vec![DiceEvent::Owned(DiceNumber::One), DiceEvent::Lost]);
}

#[test]
fn a_bump_pushes_the_asteroid_and_removes_nothing() {
    let config = Config::default();
    let mut commands = vec![Command::Despawn { entity: 9 }];
    let mut events = vec![];
    Impact::Bumped { ship: 10, asteroid: 1, direction: Offset { dx: 0, dy: 1 } }.carry_out(
        &config,
        DiceNumber::Four,
        &mut commands,
        &mut events,
    );
    assert_eq!(
        commands,
        vec![
            Command::Despawn { entity: 9 },
            Command::Push { entity: 1, direction: Offset { dx: 0, dy: 1 }, force: 4 },
        ]
    );
    assert_eq!(events, vec![]);
}

#[test]
fn a_destruction_removes_the_asteroid_and_leaves_a_die() {
    let config = Config::default();
    let mut commands = vec![];
    let mut events = vec![];
    Impact::Destroyed { ship: 11, asteroid: 1, position: at(100, 101) }.carry_out(
        &config,
        DiceNumber::Four,
        &mut commands,
        &mut events,
    );
    assert_eq!(
        commands,
        vec![
            Command::Despawn { entity: 1 },
            Command::SpawnLoot {
                asteroid: 1,
                position: at(100, 101),
                face: DiceNumber::Four,
                half_size: 25,
            },
        ]
    );
    assert_eq!(events, vec![]);
}

#[test]
fn an_ignored_contact_has_no_effect() {
    let config = Config::default();
    let mut commands = vec![];
    let mut events = vec![];
    Impact::Ignored.carry_out(&config, DiceNumber::Four, &mut commands, &mut events);
    assert_eq!(commands, vec![]);
    assert_eq!(events, vec![]);
}

#[test]
fn contacts_are_handled_one_by_one_in_their_order() {
    let config = Config::default();
    let scene = arena();
    let mut rng = rand::thread_rng();
    let mut events = vec![];
    let contacts = vec![pair(1, 0), pair(10, 11), pair(10, 1), pair(2, 0), pair(20, 0)];
    let commands = scene.dispatch_contacts(&config, &contacts, &mut rng, &mut events);
    assert_eq!(
        commands,
        vec![
            Command::Despawn { entity: 1 },
            Command::Push { entity: 1, direction: Offset { dx: 0, dy: 1 }, force: 4 },
            Command::Despawn { entity: 2 },
        ]
    );
    assert_eq!(events, vec![DiceEvent::Lost, DiceEvent::Lost]);
}

#[test]
fn an_asteroid_touched_twice_has_both_effects() {
    let config = Config::default();
    let scene = arena();
    let mut rng = rand::thread_rng();
    let mut events = vec![];
    let contacts = vec![pair(0, 1), pair(1, 11), pair(0, 1)];
    let commands = scene.dispatch_contacts(&config, &contacts, &mut rng, &mut events);
    assert_eq!(commands.len(), 4);
    assert_eq!(commands[0], Command::Despawn { entity: 1 });
    assert_eq!(commands[1], Command::Despawn { entity: 1 });
    match commands[2] {
        Command::SpawnLoot { asteroid, position, face, half_size } => {
            assert_eq!(asteroid, 1);
            assert_eq!(position, at(100, 101));
            assert_eq!(half_size, 25);
            assert!(1 <= face.value() && face.value() <= 6);
        }
        _ => panic!("a destroyed asteroid leaves a die"),
    }
    assert_eq!(commands[3], Command::Despawn { entity: 1 });
    assert_eq!(events, vec![DiceEvent::Lost, DiceEvent::Lost]);
}

#[test]
fn destroyed_asteroids_leave_dice_of_every_face() {
    let config = Config::default();
    let scene = arena();
    let mut rng = rand::thread_rng();
    let mut events = vec![];
    let contacts = vec![pair(11, 1); 3000];
    let commands = scene.dispatch_contacts(&config, &contacts, &mut rng, &mut events);
    assert_eq!(commands.len(), 6000);
    let mut seen = [false; 6];
    for (i, command) in commands.iter().enumerate() {
        match command {
            Command::Despawn { entity } => {
                assert_eq!(i % 2, 0);
                assert_eq!(*entity, 1);
            }
            Command::SpawnLoot { asteroid, position, face, half_size } => {
                assert_eq!(i % 2, 1);
                assert_eq!(*asteroid, 1);
                assert_eq!(*position, at(100, 101));
                assert_eq!(*half_size, 25);
                seen[usize::from(face.value()) - 1] = true;
            }
            Command::Push { .. } => panic!("a destroying ship does not push"),
        }
    }
    assert_eq!(seen, [true; 6]);
    assert!(events.is_empty());
}

#[test]
fn no_contacts_no_effects() {
    let config = Config::default();
    let scene = arena();
    let mut rng = rand::thread_rng();
    let mut events = vec![DiceEvent::Lost];
    let commands = scene.dispatch_contacts(&config, &vec![], &mut rng, &mut events);
    assert_eq!(commands, vec![]);
    assert_eq!(events, vec![DiceEvent::Lost]);
}

#[test]
fn the_tunables_reach_the_commands() {
    let mut config = Config::default();
    config.bump_force = 9;
    config.loot_half_size = 3;
    let mut commands = vec![];
    let mut events = vec![];
    Impact::Bumped { ship: 10, asteroid: 1, direction: Offset { dx: 2, dy: 0 } }.carry_out(
        &config,
        DiceNumber::One,
        &mut commands,
        &mut events,
    );
    Impact::Destroyed { ship: 11, asteroid: 1, position: at(1, 1) }.carry_out(
        &config,
        DiceNumber::One,
        &mut commands,
        &mut events,
    );
    assert_eq!(commands[0], Command::Push { entity: 1, direction: Offset { dx: 2, dy: 0 }, force: 9 });
    assert_eq!(
        commands[2],
        Command::SpawnLoot { asteroid: 1, position: at(1, 1), face: DiceNumber::One, half_size: 3 }
    );
}
