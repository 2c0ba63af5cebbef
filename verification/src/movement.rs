//! Where each ship heads: after its target, or back to the planet.

use crate::config::Config;
use crate::geometry::{lemma_dist2_zero, squared, Offset, Point};
use crate::scene::{Role, Scene, SceneView};
use vstd::prelude::*;

verus! {

/// What a ship is told to do for one step.
#[derive(Debug, Clone, Copy, PartialEq, Eq, Structural)]
pub enum Steering {
    /// Fly at `speed` along `direction`, which is never the zero offset.
    Toward { direction: Offset, speed: u32 },
    /// Stand still.
    Hold,
}

/// The order given to one ship.
#[derive(Debug, Clone, Copy, PartialEq, Eq, Structural)]
pub struct Move {
    pub ship: u64,
    pub steering: Steering,
}

/// How to get from `from` to `to` at `speed`. A ship that is already there
/// stands still: there is no direction to fly in.
pub open spec fn heading(from: Point, to: Point, speed: u32) -> Steering {
    if from == to {
        Steering::Hold
    } else {
        Steering::Toward { direction: from.offset_to(to), speed }
    }
}

/// The steering of a ship at `ship` whose target is `target`.
///
/// A ship whose target is an asteroid of the scene heads for it. Any other ship
/// heads for the planet while it is farther than `planet_sight` from it, and
/// stands still once it is within that distance, the rim included.
pub open spec fn steering(
    scene: SceneView,
    config: Config,
    ship: Point,
    target: Option<u64>,
) -> Steering {
    if target is Some && scene.is_asteroid(target.unwrap()) {
        heading(ship, scene.position_of(target.unwrap()), config.ship_speed)
    } else if ship.dist2(scene.planet.position) > squared(config.planet_sight as int) {
        heading(ship, scene.planet.position, config.ship_speed)
    } else {
        Steering::Hold
    }
}

/// The orders for the ships among the first `n` bodies of the scene, in the
/// order of the scene.
pub open spec fn moves_of_first(scene: SceneView, config: Config, n: int) -> Seq<Move>
    decreases n,
{
    if n <= 0 {
        Seq::empty()
    } else {
        let before = moves_of_first(scene, config, n - 1);
        let body = scene.bodies[n - 1];
        match body.role {
            Role::Ship { power: _, target } => before.push(
                Move { ship: body.id, steering: steering(scene, config, body.position, target) },
            ),
            _ => before,
        }
    }
}

/// The orders for all ships of the scene, one for each, in the order of the
/// scene.
pub open spec fn ship_moves(scene: SceneView, config: Config) -> Seq<Move> {
    moves_of_first(scene, config, scene.bodies.len() as int)
}

/// How to get from `from` to `to` at `speed`.
pub fn head_for(from: Point, to: Point, speed: u32) -> (order: Steering)
    ensures
        order == heading(from, to, speed),
{
    let direction = from.direction_to(to);
    if direction.dx == 0 && direction.dy == 0 {
        Steering::Hold
    } else {
        Steering::Toward { direction, speed }
    }
}

impl Scene {
    /// The steering of a ship at `ship` whose target is `target`.
    pub fn steer(&self, config: &Config, ship: Point, target: Option<u64>) -> (order: Steering)
        requires
            self.wf(),
        ensures
            order == steering(self@, *config, ship, target),
    {
        let chased = match target {
            Some(id) => self.find_asteroid(id),
            None => None,
        };
        match chased {
            Some(i) => {
                assert(self@.holds(i as int, target.unwrap()));
                head_for(ship, self.bodies[i].position, config.ship_speed)
            },
            None => {
                let sight: u128 = config.planet_sight as u128;
                assert(0 <= sight * sight <= 0x1_0000_0000_0000_0000) by (nonlinear_arith)
                    requires
                        0 <= sight <= 0x1_0000_0000,
                ;
                if ship.distance_squared(self.planet.position) > sight * sight {
                    head_for(ship, self.planet.position, config.ship_speed)
                } else {
                    Steering::Hold
                }
            },
        }
    }

    /// The orders for all ships of the scene, one for each, in the order of
    /// the scene.
    pub fn move_ships(&self, config: &Config) -> (orders: Vec<Move>)
        requires
            self.wf(),
        ensures
            orders@ == ship_moves(self@, *config),
    {
        let mut orders: Vec<Move> = Vec::new();
        let mut i: usize = 0;
        while i < self.bodies.len()
            invariant
                i <= self.bodies@.len(),
                self.wf(),
                orders@ == moves_of_first(self@, *config, i as int),
            decreases self.bodies@.len() - i,
        {
            let body = self.bodies[i];
            match body.role {
                Role::Ship { power: _, target } => {
                    let order = self.steer(config, body.position, target);
                    orders.push(Move { ship: body.id, steering: order });
                },
                _ => {},
            }
            i += 1;
        }
        orders
    }
}

/// A way of length zero has no direction. Heading for a place is standing
/// still exactly when the place is at distance zero, and no ship is ever told
/// to fly along the zero offset, wherever the ship, its target and the planet
/// stand.
pub proof fn lemma_zero_vector_safety(
    scene: SceneView,
    config: Config,
    ship: Point,
    target: Option<u64>,
    to: Point,
)
    ensures
        heading(ship, to, config.ship_speed) is Hold <==> ship.dist2(to) == 0,
        match steering(scene, config, ship, target) {
            Steering::Toward { direction, speed } => !direction.is_zero() && speed
                == config.ship_speed,
            Steering::Hold => true,
        },
{
    lemma_dist2_zero(ship, to);
}

} // verus!
