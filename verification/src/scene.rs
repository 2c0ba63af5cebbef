//! The bodies of the arena as the rules see them: who is what, and where.

use crate::dice::DiceNumber;
use crate::geometry::Point;
use vstd::prelude::*;

verus! {

/// What a ship does to an asteroid it touches.
#[derive(Debug, Clone, Copy, PartialEq, Eq, Hash, Structural)]
pub enum Power {
    /// Pushes the asteroid away.
    Bump,
    /// Destroys the asteroid, which leaves a die behind.
    Destroy,
}

/// What a body is, with what belongs to it.
#[derive(Debug, Clone, Copy, PartialEq, Eq, Hash, Structural)]
pub enum Role {
    Asteroid,
    Ship { power: Power, target: Option<u64> },
    Loot { face: DiceNumber, half_size: u32 },
}

/// A body other than the planet.
#[derive(Debug, Clone, Copy, PartialEq, Eq, Hash, Structural)]
pub struct Body {
    pub id: u64,
    pub position: Point,
    pub role: Role,
}

impl Body {
    /// The asteroid that the body chases: the target of a ship that has one.
    pub open spec fn target(self) -> Option<u64> {
        match self.role {
            Role::Ship { power: _, target } => target,
            _ => None,
        }
    }
}

/// The planet to defend.
#[derive(Debug, Clone, Copy, PartialEq, Eq, Hash, Structural)]
pub struct Planet {
    pub id: u64,
    pub position: Point,
}

/// A scene as a mathematical value: the planet, and the other bodies in the
/// order in which they were added.
pub struct SceneView {
    pub planet: Planet,
    pub bodies: Seq<Body>,
}

impl SceneView {
    /// No two bodies share an identifier, and none has the planet's.
    pub open spec fn wf(self) -> bool {
        &&& forall|i: int, j: int|
            0 <= i < j < self.bodies.len() ==> self.bodies[i].id != self.bodies[j].id
        &&& forall|i: int| 0 <= i < self.bodies.len() ==> (#[trigger] self.bodies[i]).id != self.planet.id
    }

    /// Whether `id` names the planet or one of the bodies.
    pub open spec fn contains(self, id: u64) -> bool {
        id == self.planet.id || exists|i: int| self.holds(i, id)
    }

    /// Whether the body at index `i` has the identifier `id`.
    pub open spec fn holds(self, i: int, id: u64) -> bool {
        0 <= i < self.bodies.len() && self.bodies[i].id == id
    }

    /// The index of the body named `id`, if there is one.
    pub open spec fn index_of(self, id: u64) -> Option<int> {
        if exists|i: int| self.holds(i, id) {
            Some(choose|i: int| self.holds(i, id))
        } else {
            None
        }
    }

    /// Whether the body at index `i` is an asteroid.
    pub open spec fn asteroid_at(self, i: int) -> bool {
        0 <= i < self.bodies.len() && self.bodies[i].role is Asteroid
    }

    /// Whether `id` names an asteroid of the scene.
    pub open spec fn is_asteroid(self, id: u64) -> bool {
        match self.index_of(id) {
            Some(i) => self.asteroid_at(i),
            None => false,
        }
    }

    /// Whether `id` names a ship of the scene that has the power `power`.
    pub open spec fn is_ship_with(self, id: u64, power: Power) -> bool {
        match self.index_of(id) {
            Some(i) => match self.bodies[i].role {
                Role::Ship { power: p, target: _ } => p == power,
                _ => false,
            },
            None => false,
        }
    }

    /// Whether the body at index `i` chases nothing or an asteroid of the
    /// scene.
    pub open spec fn target_is_live(self, i: int) -> bool {
        match self.bodies[i].target() {
            Some(t) => self.is_asteroid(t),
            None => true,
        }
    }

    /// Whether every target in the scene is an asteroid of the scene.
    pub open spec fn targets_are_live(self) -> bool {
        forall|i: int| 0 <= i < self.bodies.len() ==> self.target_is_live(i)
    }

    /// Where the body named `id` stands. Meant for an `id` that the scene holds.
    pub open spec fn position_of(self, id: u64) -> Point {
        if id == self.planet.id {
            self.planet.position
        } else {
            self.bodies[self.index_of(id).unwrap()].position
        }
    }
}

/// In a well-formed scene the body at index `i` is the one its identifier
/// names.
pub proof fn lemma_index_of(scene: SceneView, i: int)
    requires
        scene.wf(),
        0 <= i < scene.bodies.len(),
    ensures
        scene.index_of(scene.bodies[i].id) == Some(i),
{
    let id = scene.bodies[i].id;
    assert(scene.holds(i, id));
    let k = choose|k: int| scene.holds(k, id);
    assert(scene.holds(k, id));
    if k < i {
        assert(scene.bodies[k].id != scene.bodies[i].id);
    } else if i < k {
        assert(scene.bodies[i].id != scene.bodies[k].id);
    }
}

/// The bodies of the arena at one moment.
pub struct Scene {
    pub(crate) planet: Planet,
    pub(crate) bodies: Vec<Body>,
}

impl View for Scene {
    type V = SceneView;

    open(crate) spec fn view(&self) -> SceneView {
        SceneView { planet: self.planet, bodies: self.bodies@ }
    }
}

impl Scene {
    /// Whether the scene is well formed. Every scene that `new` and `insert`
    /// have built is.
    pub open spec fn wf(&self) -> bool {
        self@.wf()
    }

    /// A scene with the planet and nothing else.
    pub fn new(planet_id: u64, planet_position: Point) -> (scene: Scene)
        ensures
            scene@.planet == (Planet { id: planet_id, position: planet_position }),
            scene@.bodies.len() == 0,
            scene.wf(),
    {
        Scene { planet: Planet { id: planet_id, position: planet_position }, bodies: Vec::new() }
    }

    /// The planet of the scene.
    pub fn planet(&self) -> (planet: Planet)
        ensures
            planet == self@.planet,
    {
        self.planet
    }

    /// The bodies of the scene other than the planet, in the order in which
    /// they were added.
    pub fn bodies(&self) -> (bodies: &Vec<Body>)
        ensures
            bodies@ == self@.bodies,
    {
        &self.bodies
    }

    /// The index of the body named `id`, if there is one.
    pub fn find(&self, id: u64) -> (found: Option<usize>)
        requires
            self.wf(),
        ensures
            match found {
                Some(i) => self@.index_of(id) == Some(i as int),
                None => self@.index_of(id) is None,
            },
    {
        let mut i: usize = 0;
        while i < self.bodies.len()
            invariant
                i <= self.bodies@.len(),
                self@.wf(),
                self@.bodies == self.bodies@,
                forall|j: int| 0 <= j < i ==> !self@.holds(j, id),
            decreases self.bodies@.len() - i,
        {
            if self.bodies[i].id == id {
                proof {
                    lemma_index_of(self@, i as int);
                }
                return Some(i);
            }
            i += 1;
        }
        None
    }

    /// Adds a body at the end of the scene, unless its identifier is taken.
    /// Says whether the body was added.
    pub fn insert(&mut self, body: Body) -> (added: bool)
        requires
            old(self).wf(),
        ensures
            added == !old(self)@.contains(body.id),
            added ==> final(self)@.bodies == old(self)@.bodies.push(body),
            !added ==> final(self)@.bodies == old(self)@.bodies,
            final(self)@.planet == old(self)@.planet,
            final(self).wf(),
    {
        if body.id == self.planet.id {
            return false;
        }
        match self.find(body.id) {
            Some(_) => false,
            None => {
                assert forall|i: int| 0 <= i < self.bodies@.len() implies self.bodies@[i].id
                    != body.id by {
                    assert(!self@.holds(i, body.id));
                }
                self.bodies.push(body);
                true
            },
        }
    }
}

/// The two ships a game begins with, named `bump_ship` and `destroy_ship`:
/// one that bumps at (100, 100) and one that destroys at (100, -100), neither
/// with a target.
pub open spec fn starting_ships(bump_ship: u64, destroy_ship: u64) -> Seq<Body> {
    seq![
        Body {
            id: bump_ship,
            position: Point { x: 100, y: 100 },
            role: Role::Ship { power: Power::Bump, target: None },
        },
        Body {
            id: destroy_ship,
            position: Point { x: 100, y: -100i32 },
            role: Role::Ship { power: Power::Destroy, target: None },
        },
    ]
}

impl Scene {
    /// Adds the two ships a game begins with, or neither: nothing is added
    /// when the two names are the same or one of them is taken. Says whether
    /// the ships were added.
    pub fn setup_ships(&mut self, bump_ship: u64, destroy_ship: u64) -> (added: bool)
        requires
            old(self).wf(),
        ensures
            added == (bump_ship != destroy_ship && !old(self)@.contains(bump_ship) && !old(
                self,
            )@.contains(destroy_ship)),
            added ==> final(self)@.bodies == old(self)@.bodies + starting_ships(
                bump_ship,
                destroy_ship,
            ),
            !added ==> final(self)@.bodies == old(self)@.bodies,
            final(self)@.planet == old(self)@.planet,
            final(self).wf(),
    {
        if bump_ship == destroy_ship || bump_ship == self.planet.id || destroy_ship
            == self.planet.id {
            return false;
        }
        if self.find(bump_ship).is_some() || self.find(destroy_ship).is_some() {
            return false;
        }
        let ghost before = self@;
        let first = self.insert(
            Body {
                id: bump_ship,
                position: Point { x: 100, y: 100 },
                role: Role::Ship { power: Power::Bump, target: None },
            },
        );
        proof {
            if self@.index_of(destroy_ship) is Some {
                let k = self@.index_of(destroy_ship).unwrap();
                assert(self@.holds(k, destroy_ship));
                assert(before.holds(k, destroy_ship));
            }
        }
        let second = self.insert(
            Body {
                id: destroy_ship,
                position: Point { x: 100, y: -100 },
                role: Role::Ship { power: Power::Destroy, target: None },
            },
        );
        assert(self@.bodies =~= old(self)@.bodies + starting_ships(bump_ship, destroy_ship));
        true
    }
}

} // verus!
