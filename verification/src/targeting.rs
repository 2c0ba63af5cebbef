//! Which asteroid each ship chases.
//!
//! A ship takes a target only when the asteroid is near the ship, and gives it
//! up only when the asteroid is far from the planet: once a chase has begun,
//! the gap between ship and asteroid no longer matters.

use crate::config::Config;
use crate::geometry::Point;
use crate::scene::{lemma_index_of, Body, Role, Scene, SceneView};
use vstd::prelude::*;

verus! {

/// Whether the asteroid at index `i` is the one nearest to `from`: no asteroid
/// is nearer, and every asteroid before it is farther.
pub open spec fn is_nearest(scene: SceneView, i: int, from: Point) -> bool {
    &&& scene.asteroid_at(i)
    &&& forall|j: int| #[trigger]
        scene.asteroid_at(j) ==> from.dist2(scene.bodies[i].position) <= from.dist2(
            scene.bodies[j].position,
        )
    &&& forall|j: int| #[trigger]
        scene.asteroid_at(j) && j < i ==> from.dist2(scene.bodies[i].position) < from.dist2(
            scene.bodies[j].position,
        )
}

/// The index of the asteroid nearest to `from`, if the scene has an asteroid.
pub open spec fn nearest_asteroid(scene: SceneView, from: Point) -> Option<int> {
    if exists|i: int| is_nearest(scene, i, from) {
        Some(choose|i: int| is_nearest(scene, i, from))
    } else {
        None
    }
}

/// Whether a ship at `ship` may take the asteroid at index `i` as its target:
/// the asteroid is within the trigger distance of the ship and within the
/// distance of interest of the planet.
pub open spec fn may_engage(scene: SceneView, config: Config, ship: Point, i: int) -> bool {
    &&& ship.within(scene.bodies[i].position, config.trigger_distance)
    &&& scene.planet.position.within(scene.bodies[i].position, config.interest_distance)
}

/// The target of a ship at `ship` after targeting, given its target before.
///
/// A target that is still an asteroid of the scene is kept while the asteroid
/// is within the distance of interest of the planet, and dropped once it is
/// not; the ship then has no target for this step. A ship without a live
/// target takes the nearest asteroid if it may engage it, and none otherwise.
pub open spec fn next_target(
    scene: SceneView,
    config: Config,
    ship: Point,
    current: Option<u64>,
) -> Option<u64> {
    if current is Some && scene.is_asteroid(current.unwrap()) {
        if scene.planet.position.within(
            scene.position_of(current.unwrap()),
            config.interest_distance,
        ) {
            current
        } else {
            None
        }
    } else {
        match nearest_asteroid(scene, ship) {
            Some(i) => if may_engage(scene, config, ship, i) {
                Some(scene.bodies[i].id)
            } else {
                None
            },
            None => None,
        }
    }
}

/// A body after targeting: a ship with its next target, any other body as it
/// was.
pub open spec fn retargeted(scene: SceneView, config: Config, body: Body) -> Body {
    match body.role {
        Role::Ship { power, target } => Body {
            id: body.id,
            position: body.position,
            role: Role::Ship {
                power,
                target: next_target(scene, config, body.position, target),
            },
        },
        _ => body,
    }
}

/// The scene after targeting: every ship has its next target, and nothing else
/// has changed.
pub open spec fn after_targeting(scene: SceneView, config: Config) -> SceneView {
    SceneView {
        planet: scene.planet,
        bodies: Seq::new(scene.bodies.len(), |i: int| retargeted(scene, config, scene.bodies[i])),
    }
}

/// At most one asteroid is the nearest.
pub proof fn lemma_nearest_unique(scene: SceneView, from: Point, i: int, j: int)
    requires
        is_nearest(scene, i, from),
        is_nearest(scene, j, from),
    ensures
        i == j,
{
    assert(scene.asteroid_at(i));
    assert(scene.asteroid_at(j));
}

impl Scene {
    /// The index of the asteroid nearest to `from`, the earliest of those
    /// equally near. `None` when the scene has no asteroid.
    pub fn nearest_asteroid(&self, from: Point) -> (found: Option<usize>)
        ensures
            match found {
                Some(i) => nearest_asteroid(self@, from) == Some(i as int),
                None => nearest_asteroid(self@, from) is None,
            },
            found is None <==> forall|j: int| !self@.asteroid_at(j),
    {
        let mut best: Option<usize> = None;
        let mut best_d: u128 = 0;
        let mut i: usize = 0;
        while i < self.bodies.len()
            invariant
                i <= self.bodies@.len(),
                self@.bodies == self.bodies@,
                match best {
                    Some(b) => {
                        &&& b < i
                        &&& self@.asteroid_at(b as int)
                        &&& best_d == from.dist2(self.bodies@[b as int].position)
                        &&& forall|j: int| #[trigger]
                            self@.asteroid_at(j) && j < i ==> best_d <= from.dist2(
                                self.bodies@[j].position,
                            )
                        &&& forall|j: int| #[trigger]
                            self@.asteroid_at(j) && j < b ==> best_d < from.dist2(
                                self.bodies@[j].position,
                            )
                    },
                    None => forall|j: int| #[trigger] self@.asteroid_at(j) ==> j >= i,
                },
            decreases self.bodies@.len() - i,
        {
            match self.bodies[i].role {
                Role::Asteroid => {
                    let d = from.distance_squared(self.bodies[i].position);
                    if best.is_none() || d < best_d {
                        best = Some(i);
                        best_d = d;
                    }
                },
                _ => {},
            }
            i += 1;
        }
        proof {
            match best {
                Some(b) => {
                    assert(is_nearest(self@, b as int, from));
                    let c = choose|c: int| is_nearest(self@, c, from);
                    lemma_nearest_unique(self@, from, b as int, c);
                },
                None => {
                    assert forall|c: int| !is_nearest(self@, c, from) by {
                        if self@.asteroid_at(c) {
                            assert(c >= i);
                        }
                    }
                },
            }
        }
        best
    }

    /// The index of the asteroid named `id`, if `id` names an asteroid of the
    /// scene.
    pub fn find_asteroid(&self, id: u64) -> (found: Option<usize>)
        requires
            self.wf(),
        ensures
            found is Some <==> self@.is_asteroid(id),
            found is Some ==> self@.index_of(id) == Some(found.unwrap() as int),
    {
        match self.find(id) {
            Some(i) => match self.bodies[i].role {
                Role::Asteroid => Some(i),
                _ => None,
            },
            None => None,
        }
    }

    /// The target of a ship at `ship` after targeting, given its target before.
    pub fn lock_target(&self, config: &Config, ship: Point, current: Option<u64>) -> (next: Option<
        u64,
    >)
        requires
            self.wf(),
        ensures
            next == next_target(self@, *config, ship, current),
            next is Some ==> self@.is_asteroid(next.unwrap()),
    {
        let chased = match current {
            Some(id) => self.find_asteroid(id),
            None => None,
        };
        match chased {
            Some(i) => {
                assert(self@.holds(i as int, current.unwrap()));
                if self.planet.position.is_within(
                    self.bodies[i].position,
                    config.interest_distance,
                ) {
                    current
                } else {
                    None
                }
            },
            None => match self.nearest_asteroid(ship) {
                Some(i) => {
                    if ship.is_within(self.bodies[i].position, config.trigger_distance)
                        && self.planet.position.is_within(
                        self.bodies[i].position,
                        config.interest_distance,
                    ) {
                        proof {
                            lemma_index_of(self@, i as int);
                        }
                        Some(self.bodies[i].id)
                    } else {
                        None
                    }
                },
                None => None,
            },
        }
    }

    /// Runs targeting for every ship of the scene, each against the scene as
    /// it stands. Afterwards no ship has a target that is not an asteroid of
    /// the scene.
    pub fn setup_ships_target_lock(&mut self, config: &Config)
        requires
            old(self).wf(),
        ensures
            final(self)@ == after_targeting(old(self)@, *config),
            final(self).wf(),
            final(self)@.targets_are_live(),
    {
        let mut bodies: Vec<Body> = Vec::new();
        let mut i: usize = 0;
        while i < self.bodies.len()
            invariant
                i <= self.bodies@.len(),
                self.wf(),
                self == old(self),
                bodies@.len() == i,
                forall|j: int|
                    0 <= j < i ==> bodies@[j] == retargeted(self@, *config, self.bodies@[j]),
            decreases self.bodies@.len() - i,
        {
            let body = self.bodies[i];
            let next = match body.role {
                Role::Ship { power, target } => Body {
                    id: body.id,
                    position: body.position,
                    role: Role::Ship {
                        power,
                        target: self.lock_target(config, body.position, target),
                    },
                },
                _ => body,
            };
            bodies.push(next);
            i += 1;
        }
        proof {
            assert(bodies@ =~= after_targeting(self@, *config).bodies);
            lemma_targets_are_live(self@, *config);
        }
        self.bodies = bodies;
    }
}

/// After targeting, the target of every ship is either none or an asteroid of
/// the scene. The scene stays well formed.
pub proof fn lemma_targets_are_live(scene: SceneView, config: Config)
    requires
        scene.wf(),
    ensures
        after_targeting(scene, config).wf(),
        after_targeting(scene, config).targets_are_live(),
{
    let after = after_targeting(scene, config);
    assert forall|i: int| 0 <= i < after.bodies.len() implies after.target_is_live(i) by {
        let body = scene.bodies[i];
        if let Some(t) = after.bodies[i].target() {
            if let Role::Ship { power, target } = body.role {
                lemma_next_target_is_live(scene, config, body.position, target);
                let k = scene.index_of(t).unwrap();
                assert(scene.holds(k, t));
                assert(after.bodies[k] == retargeted(scene, config, scene.bodies[k]));
                lemma_index_of(after, k);
            }
        }
    }
}

/// The next target of a ship is either none or an asteroid of the scene.
pub proof fn lemma_next_target_is_live(
    scene: SceneView,
    config: Config,
    ship: Point,
    current: Option<u64>,
)
    requires
        scene.wf(),
    ensures
        match next_target(scene, config, ship, current) {
            Some(t) => scene.is_asteroid(t),
            None => true,
        },
{
    if !(current is Some && scene.is_asteroid(current.unwrap())) {
        if let Some(i) = nearest_asteroid(scene, ship) {
            assert(is_nearest(scene, i, ship));
            lemma_index_of(scene, i);
        }
    }
}

/// A ship keeps a target that is an asteroid within the distance of interest
/// of the planet, however far the asteroid is from the ship; it drops a target
/// that is an asteroid beyond that distance, however near the asteroid is to
/// the ship.
pub proof fn lemma_hysteresis(scene: SceneView, config: Config, ship: Point, target: u64)
    requires
        scene.wf(),
        scene.is_asteroid(target),
    ensures
        next_target(scene, config, ship, Some(target)) == if scene.planet.position.within(
            scene.position_of(target),
            config.interest_distance,
        ) {
            Some(target)
        } else {
            None
        },
{
}

} // verus!
