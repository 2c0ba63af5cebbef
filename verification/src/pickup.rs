//! Picking up dice with the pointer.
//!
//! A click picks up one die at most: the first die of the scene whose box
//! holds the clicked point, even where the boxes of several dice overlap.

use crate::bag::DiceEvent;
use crate::collision::Command;
use crate::geometry::Point;
use crate::scene::{Role, Scene, SceneView};
use vstd::prelude::*;

verus! {

/// Whether `click` lies in the square box around `center` that reaches
/// `half_size` to each side, its edges included.
pub open spec fn in_box(center: Point, half_size: u32, click: Point) -> bool {
    &&& center.x - half_size <= click.x <= center.x + half_size
    &&& center.y - half_size <= click.y <= center.y + half_size
}

/// Whether the body at index `i` is a die whose box holds `click`.
pub open spec fn loot_hit(scene: SceneView, i: int, click: Point) -> bool {
    &&& 0 <= i < scene.bodies.len()
    &&& match scene.bodies[i].role {
        Role::Loot { face: _, half_size } => in_box(scene.bodies[i].position, half_size, click),
        _ => false,
    }
}

/// Whether the body at index `i` is the first die whose box holds `click`.
pub open spec fn is_first_hit(scene: SceneView, i: int, click: Point) -> bool {
    &&& loot_hit(scene, i, click)
    &&& forall|j: int| 0 <= j < i ==> !loot_hit(scene, j, click)
}

/// The index of the first die whose box holds `click`, if there is one.
pub open spec fn first_hit(scene: SceneView, click: Point) -> Option<int> {
    if exists|i: int| is_first_hit(scene, i, click) {
        Some(choose|i: int| is_first_hit(scene, i, click))
    } else {
        None
    }
}

/// What a click tells the host to do: remove the die that was hit.
pub open spec fn pickup_commands(scene: SceneView, click: Point) -> Seq<Command> {
    match first_hit(scene, click) {
        Some(i) => seq![Command::Despawn { entity: scene.bodies[i].id }],
        None => Seq::empty(),
    }
}

/// The dice events of a click: the die that was hit is won, with the face it
/// shows.
pub open spec fn pickup_events(scene: SceneView, click: Point) -> Seq<DiceEvent> {
    match first_hit(scene, click) {
        Some(i) => match scene.bodies[i].role {
            Role::Loot { face, half_size: _ } => seq![DiceEvent::Owned(face)],
            _ => Seq::empty(),
        },
        None => Seq::empty(),
    }
}

/// Whether `click` lies in the square box around `center` that reaches
/// `half_size` to each side, its edges included.
pub fn is_in_box(center: Point, half_size: u32, click: Point) -> (inside: bool)
    ensures
        inside == in_box(center, half_size, click),
{
    let half: i64 = half_size as i64;
    let x: i64 = click.x as i64;
    let y: i64 = click.y as i64;
    let cx: i64 = center.x as i64;
    let cy: i64 = center.y as i64;
    cx - half <= x && x <= cx + half && cy - half <= y && y <= cy + half
}

impl Scene {
    /// The index of the first die whose box holds `click`, if there is one.
    pub fn first_hit(&self, click: Point) -> (found: Option<usize>)
        ensures
            match found {
                Some(i) => first_hit(self@, click) == Some(i as int),
                None => first_hit(self@, click) is None,
            },
            found is None <==> forall|j: int| !loot_hit(self@, j, click),
    {
        let mut i: usize = 0;
        while i < self.bodies.len()
            invariant
                i <= self.bodies@.len(),
                forall|j: int| 0 <= j < i ==> !loot_hit(self@, j, click),
            decreases self.bodies@.len() - i,
        {
            match self.bodies[i].role {
                Role::Loot { face: _, half_size } => {
                    if is_in_box(self.bodies[i].position, half_size, click) {
                        proof {
                            assert(is_first_hit(self@, i as int, click));
                            let c = choose|c: int| is_first_hit(self@, c, click);
                            assert(loot_hit(self@, c, click));
                            assert(c == i);
                        }
                        return Some(i);
                    }
                },
                _ => {},
            }
            i += 1;
        }
        None
    }

    /// Handles a click at `click`: tells the host to remove the die that was
    /// hit, if any, and adds the event that wins it to the queue of dice
    /// events.
    pub fn collect_dices_by_mouse_clicking(&self, click: Point, events: &mut Vec<DiceEvent>) -> (commands:
        Vec<Command>)
        ensures
            commands@ == pickup_commands(self@, click),
            final(events)@ == old(events)@ + pickup_events(self@, click),
    {
        let mut commands: Vec<Command> = Vec::new();
        match self.first_hit(click) {
            Some(i) => {
                assert(is_first_hit(self@, i as int, click));
                match self.bodies[i].role {
                    Role::Loot { face, half_size: _ } => {
                        commands.push(Command::Despawn { entity: self.bodies[i].id });
                        events.push(DiceEvent::Owned(face));
                    },
                    _ => {},
                }
            },
            None => {},
        }
        assert(commands@ =~= pickup_commands(self@, click));
        assert(events@ =~= old(events)@ + pickup_events(self@, click));
        commands
    }
}

} // verus!
