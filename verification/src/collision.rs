//! What follows when two bodies touch.
//!
//! An asteroid that reaches the planet is gone and costs a die. A ship that
//! bumps pushes the asteroid away; a ship that destroys removes it and leaves a
//! die where it was. Every other pair is ignored. A contact names its two
//! bodies in either order.

use crate::bag::DiceEvent;
use crate::config::Config;
use crate::dice::DiceNumber;
use crate::geometry::{Offset, Point};
use crate::scene::{Power, Role, Scene, SceneView};
use rand::rngs::ThreadRng;
use vstd::prelude::*;

verus! {

/// Two bodies that began to touch in this step.
#[derive(Debug, Clone, Copy, PartialEq, Eq, Structural)]
pub struct Contact {
    pub first: u64,
    pub second: u64,
}

/// What a contact is, by the roles of its two bodies.
#[derive(Debug, Clone, Copy, PartialEq, Eq, Structural)]
pub enum Impact {
    /// An asteroid reached the planet.
    PlanetHit { asteroid: u64 },
    /// A ship that bumps touched an asteroid; `direction` leads from the ship
    /// to the asteroid.
    Bumped { ship: u64, asteroid: u64, direction: Offset },
    /// A ship that destroys touched an asteroid, which stood at `position`.
    Destroyed { ship: u64, asteroid: u64, position: Point },
    /// Any other pair.
    Ignored,
}

/// What the host is to do to the arena.
#[derive(Debug, Clone, Copy, PartialEq, Eq, Structural)]
pub enum Command {
    /// Remove the body.
    Despawn { entity: u64 },
    /// Push the body along `direction` with `force`. Where `direction` is the
    /// zero offset there is nothing to push along.
    Push { entity: u64, direction: Offset, force: u32 },
    /// Put a die where the asteroid named `asteroid` stood, which is at
    /// `position` on the grid, to be picked up within `half_size` of it.
    SpawnLoot { asteroid: u64, position: Point, face: DiceNumber, half_size: u32 },
}

/// What the contact of `a` and `b` is when `a` is the one that hits and `b`
/// the asteroid that is hit. `Ignored` when the two are not such a pair.
pub open spec fn impact_of(scene: SceneView, a: u64, b: u64) -> Impact {
    if !scene.is_asteroid(b) {
        Impact::Ignored
    } else if a == scene.planet.id {
        Impact::PlanetHit { asteroid: b }
    } else if scene.is_ship_with(a, Power::Bump) {
        Impact::Bumped {
            ship: a,
            asteroid: b,
            direction: scene.position_of(a).offset_to(scene.position_of(b)),
        }
    } else if scene.is_ship_with(a, Power::Destroy) {
        Impact::Destroyed { ship: a, asteroid: b, position: scene.position_of(b) }
    } else {
        Impact::Ignored
    }
}

/// What a contact is: its two bodies are tried in both orders.
pub open spec fn impact(scene: SceneView, contact: Contact) -> Impact {
    if impact_of(scene, contact.first, contact.second) is Ignored {
        impact_of(scene, contact.second, contact.first)
    } else {
        impact_of(scene, contact.first, contact.second)
    }
}

/// The commands that follow from an impact. `face` is the face of the die that
/// a destroyed asteroid leaves behind; no other impact looks at it.
pub open spec fn commands_of(kind: Impact, config: Config, face: DiceNumber) -> Seq<Command> {
    match kind {
        Impact::PlanetHit { asteroid } => seq![Command::Despawn { entity: asteroid }],
        Impact::Bumped { ship: _, asteroid, direction } => seq![
            Command::Push { entity: asteroid, direction, force: config.bump_force },
        ],
        Impact::Destroyed { ship: _, asteroid, position } => seq![
            Command::Despawn { entity: asteroid },
            Command::SpawnLoot { asteroid, position, face, half_size: config.loot_half_size },
        ],
        Impact::Ignored => Seq::empty(),
    }
}

/// The dice events that follow from an impact: a die is lost when an asteroid
/// reaches the planet.
pub open spec fn events_of(kind: Impact) -> Seq<DiceEvent> {
    match kind {
        Impact::PlanetHit { asteroid: _ } => seq![DiceEvent::Lost],
        _ => Seq::empty(),
    }
}

/// The commands that follow from a batch of contacts, in their order, each
/// contact on its own. `faces` holds one face for each contact.
pub open spec fn batch_commands(
    scene: SceneView,
    config: Config,
    contacts: Seq<Contact>,
    faces: Seq<DiceNumber>,
) -> Seq<Command>
    decreases contacts.len(),
{
    if contacts.len() == 0 {
        Seq::empty()
    } else {
        batch_commands(scene, config, contacts.drop_last(), faces.drop_last()) + commands_of(
            impact(scene, contacts.last()),
            config,
            faces.last(),
        )
    }
}

/// The dice events that follow from a batch of contacts, in their order.
pub open spec fn batch_events(scene: SceneView, contacts: Seq<Contact>) -> Seq<DiceEvent>
    decreases contacts.len(),
{
    if contacts.len() == 0 {
        Seq::empty()
    } else {
        batch_events(scene, contacts.drop_last()) + events_of(impact(scene, contacts.last()))
    }
}

impl Impact {
    /// Adds what follows from the impact to the commands for the host and to
    /// the queue of dice events.
    pub fn carry_out(
        &self,
        config: &Config,
        face: DiceNumber,
        commands: &mut Vec<Command>,
        events: &mut Vec<DiceEvent>,
    )
        ensures
            final(commands)@ == old(commands)@ + commands_of(*self, *config, face),
            final(events)@ == old(events)@ + events_of(*self),
    {
        match *self {
            Impact::PlanetHit { asteroid } => {
                commands.push(Command::Despawn { entity: asteroid });
                events.push(DiceEvent::Lost);
            },
            Impact::Bumped { ship: _, asteroid, direction } => {
                commands.push(
                    Command::Push { entity: asteroid, direction, force: config.bump_force },
                );
            },
            Impact::Destroyed { ship: _, asteroid, position } => {
                commands.push(Command::Despawn { entity: asteroid });
                commands.push(
                    Command::SpawnLoot {
                        asteroid,
                        position,
                        face,
                        half_size: config.loot_half_size,
                    },
                );
            },
            Impact::Ignored => {},
        }
        assert(commands@ =~= old(commands)@ + commands_of(*self, *config, face));
        assert(events@ =~= old(events)@ + events_of(*self));
    }
}

impl Scene {
    /// What the contact of `a` and `b` is when `a` is the one that hits and
    /// `b` the asteroid that is hit.
    pub fn classify_ordered(&self, a: u64, b: u64) -> (kind: Impact)
        requires
            self.wf(),
        ensures
            kind == impact_of(self@, a, b),
    {
        let hit = match self.find_asteroid(b) {
            Some(j) => self.bodies[j].position,
            None => {
                return Impact::Ignored;
            },
        };
        assert(self@.holds(self@.index_of(b).unwrap(), b));
        if a == self.planet.id {
            return Impact::PlanetHit { asteroid: b };
        }
        match self.find(a) {
            Some(i) => {
                assert(self@.holds(i as int, a));
                match self.bodies[i].role {
                    Role::Ship { power: Power::Bump, target: _ } => Impact::Bumped {
                        ship: a,
                        asteroid: b,
                        direction: self.bodies[i].position.direction_to(hit),
                    },
                    Role::Ship { power: Power::Destroy, target: _ } => Impact::Destroyed {
                        ship: a,
                        asteroid: b,
                        position: hit,
                    },
                    _ => Impact::Ignored,
                }
            },
            None => Impact::Ignored,
        }
    }

    /// What a contact is, by the roles of its two bodies in either order.
    pub fn classify(&self, contact: Contact) -> (kind: Impact)
        requires
            self.wf(),
        ensures
            kind == impact(self@, contact),
    {
        match self.classify_ordered(contact.first, contact.second) {
            Impact::Ignored => self.classify_ordered(contact.second, contact.first),
            kind => kind,
        }
    }

    /// Goes through the contacts of one step, each on its own and in their
    /// order, against the scene as it stands. Returns the commands for the
    /// host and adds the dice events to the queue. The die that a destroyed
    /// asteroid leaves behind is rolled with `rng`.
    pub fn dispatch_contacts(
        &self,
        config: &Config,
        contacts: &Vec<Contact>,
        rng: &mut ThreadRng,
        events: &mut Vec<DiceEvent>,
    ) -> (commands: Vec<Command>)
        requires
            self.wf(),
        ensures
            exists|faces: Seq<DiceNumber>|
                faces.len() == contacts@.len() && commands@ == #[trigger] batch_commands(
                    self@,
                    *config,
                    contacts@,
                    faces,
                ),
            final(events)@ == old(events)@ + batch_events(self@, contacts@),
    {
        let mut commands: Vec<Command> = Vec::new();
        let ghost mut faces: Seq<DiceNumber> = Seq::empty();
        let mut i: usize = 0;
        assert(events@ =~= old(events)@ + batch_events(self@, contacts@.take(0)));
        while i < contacts.len()
            invariant
                i <= contacts@.len(),
                self.wf(),
                faces.len() == i,
                commands@ == batch_commands(self@, *config, contacts@.take(i as int), faces),
                events@ == old(events)@ + batch_events(self@, contacts@.take(i as int)),
            decreases contacts@.len() - i,
        {
            let kind = self.classify(contacts[i]);
            let face = match kind {
                Impact::Destroyed { ship: _, asteroid: _, position: _ } => DiceNumber::from_rng(
                    rng,
                ),
                _ => DiceNumber::Six,
            };
            proof {
                assert(contacts@.take(i + 1).drop_last() =~= contacts@.take(i as int));
                assert(faces.push(face).drop_last() =~= faces);
                faces = faces.push(face);
            }
            kind.carry_out(config, face, &mut commands, events);
            assert(events@ =~= old(events)@ + batch_events(self@, contacts@.take(i + 1)));
            i += 1;
        }
        assert(contacts@.take(i as int) =~= contacts@);
        commands
    }
}

/// A ship that bumps never removes the asteroid it touches, whichever of the
/// two the contact names first: all that follows is one push for the asteroid.
pub proof fn lemma_bump_never_despawns(
    scene: SceneView,
    config: Config,
    ship: u64,
    asteroid: u64,
    face: DiceNumber,
)
    requires
        scene.wf(),
        scene.is_ship_with(ship, Power::Bump),
        scene.is_asteroid(asteroid),
    ensures
        impact(scene, Contact { first: ship, second: asteroid }) == impact(
            scene,
            Contact { first: asteroid, second: ship },
        ),
        commands_of(impact(scene, Contact { first: ship, second: asteroid }), config, face)
            == seq![
            Command::Push {
                entity: asteroid,
                direction: scene.position_of(ship).offset_to(scene.position_of(asteroid)),
                force: config.bump_force,
            },
        ],
        events_of(impact(scene, Contact { first: ship, second: asteroid })).len() == 0,
{
    lemma_roles_exclude(scene, ship);
    lemma_roles_exclude(scene, asteroid);
}

/// A ship that destroys always removes the asteroid it touches, whichever of
/// the two the contact names first, and leaves exactly one die where the
/// asteroid stood, with a face of one to six pips. The dice bag is not
/// touched: the die has yet to be picked up.
pub proof fn lemma_destroy_always_despawns(
    scene: SceneView,
    config: Config,
    ship: u64,
    asteroid: u64,
    face: DiceNumber,
)
    requires
        scene.wf(),
        scene.is_ship_with(ship, Power::Destroy),
        scene.is_asteroid(asteroid),
    ensures
        impact(scene, Contact { first: ship, second: asteroid }) == impact(
            scene,
            Contact { first: asteroid, second: ship },
        ),
        commands_of(impact(scene, Contact { first: ship, second: asteroid }), config, face)
            == seq![
            Command::Despawn { entity: asteroid },
            Command::SpawnLoot {
                asteroid,
                position: scene.position_of(asteroid),
                face,
                half_size: config.loot_half_size,
            },
        ],
        1 <= face.pips() <= 6,
        events_of(impact(scene, Contact { first: ship, second: asteroid })).len() == 0,
{
    lemma_roles_exclude(scene, ship);
    lemma_roles_exclude(scene, asteroid);
}

/// A contact is the same whichever of its two bodies it names first.
pub proof fn lemma_impact_symmetric(scene: SceneView, a: u64, b: u64)
    requires
        scene.wf(),
    ensures
        impact(scene, Contact { first: a, second: b }) == impact(
            scene,
            Contact { first: b, second: a },
        ),
        impact_of(scene, a, b) is Ignored || impact_of(scene, b, a) is Ignored,
{
    lemma_roles_exclude(scene, a);
    lemma_roles_exclude(scene, b);
}

/// A body has one role: what names the planet names no other body, an
/// asteroid is no ship, and a ship has one power.
pub proof fn lemma_roles_exclude(scene: SceneView, id: u64)
    requires
        scene.wf(),
    ensures
        id == scene.planet.id ==> !scene.is_asteroid(id) && !scene.is_ship_with(id, Power::Bump)
            && !scene.is_ship_with(id, Power::Destroy),
        scene.is_asteroid(id) ==> !scene.is_ship_with(id, Power::Bump) && !scene.is_ship_with(
            id,
            Power::Destroy,
        ),
        !(scene.is_ship_with(id, Power::Bump) && scene.is_ship_with(id, Power::Destroy)),
{
    if let Some(i) = scene.index_of(id) {
        assert(scene.holds(i, id));
    }
}

} // verus!
