//! When asteroids appear, and what they look like.
//!
//! A repeating timer counts the time between two asteroids. When it runs out,
//! one asteroid is ordered: somewhere on a ring around the planet, pushed once
//! towards the planet and not steered afterwards.

use crate::config::Config;
use crate::geometry::Point;
use crate::random::choose_color;
use crate::scene::Scene;
use rand::rngs::ThreadRng;
use vstd::arithmetic::div_mod::{lemma_fundamental_div_mod, lemma_fundamental_div_mod_converse};
use vstd::prelude::*;

verus! {

/// A colour, by its red, green and blue parts.
#[derive(Debug, Clone, Copy, PartialEq, Eq, Hash, Structural)]
pub struct Rgb {
    pub r: u8,
    pub g: u8,
    pub b: u8,
}

/// An asteroid for the host to create: on the ring of radius `distance` around
/// `center`, at an angle of the host's choosing, with a push of strength
/// `speed` towards `center`.
#[derive(Debug, Clone, Copy, PartialEq, Eq, Structural)]
pub struct SpawnOrder {
    pub center: Point,
    pub distance: u32,
    pub radius: u32,
    pub speed: u32,
    /// The colour of the asteroid; none when the palette is empty.
    pub color: Option<Rgb>,
}

/// A repeating timer as a mathematical value: its period, and the time that
/// has passed since the last full period.
pub struct TimerView {
    pub period: nat,
    pub elapsed: nat,
}

impl TimerView {
    /// The period is not zero, and less than a period has passed.
    pub open spec fn wf(self) -> bool {
        0 <= self.elapsed < self.period
    }

    /// How many periods come to an end when `delta` more time passes.
    pub open spec fn periods_in(self, delta: nat) -> nat {
        (self.elapsed + delta) / self.period
    }

    /// The timer after `delta` more time has passed: full periods are taken
    /// off, the rest is carried over.
    pub open spec fn ticked(self, delta: nat) -> TimerView {
        TimerView { period: self.period, elapsed: (self.elapsed + delta) % self.period }
    }

    /// The timer after `steps` steps of `delta` each.
    pub open spec fn ticked_times(self, delta: nat, steps: nat) -> TimerView
        decreases steps,
    {
        if steps == 0 {
            self
        } else {
            self.ticked_times(delta, (steps - 1) as nat).ticked(delta)
        }
    }

    /// How many periods come to an end in `steps` steps of `delta` each.
    pub open spec fn periods_over(self, delta: nat, steps: nat) -> nat
        decreases steps,
    {
        if steps == 0 {
            0
        } else {
            self.periods_over(delta, (steps - 1) as nat) + self.ticked_times(
                delta,
                (steps - 1) as nat,
            ).periods_in(delta)
        }
    }

    /// How many of `steps` steps of `delta` each see a period come to an end:
    /// the number of asteroids ordered, one per such step.
    pub open spec fn spawns_over(self, delta: nat, steps: nat) -> nat
        decreases steps,
    {
        if steps == 0 {
            0
        } else {
            self.spawns_over(delta, (steps - 1) as nat) + if self.ticked_times(
                delta,
                (steps - 1) as nat,
            ).periods_in(delta) >= 1 {
                1nat
            } else {
                0nat
            }
        }
    }
}

/// The order for one asteroid around `center`.
pub open spec fn order_for(center: Point, config: Config, color: Option<Rgb>) -> SpawnOrder {
    SpawnOrder {
        center,
        distance: config.spawn_distance,
        radius: config.asteroid_radius,
        speed: config.asteroid_speed,
        color,
    }
}

/// The repeating timer that paces the asteroids. Time is in nanoseconds.
#[derive(Debug, Clone, Copy)]
pub struct SpawnTimer {
    period: u64,
    elapsed: u64,
}

impl View for SpawnTimer {
    type V = TimerView;

    closed spec fn view(&self) -> TimerView {
        TimerView { period: self.period as nat, elapsed: self.elapsed as nat }
    }
}

impl SpawnTimer {
    /// Whether the timer is well formed. Every timer that `new` has built is,
    /// and `tick` keeps it so.
    pub open spec fn wf(&self) -> bool {
        self@.wf()
    }

    /// A timer with the given period, on which no time has passed. There is no
    /// timer with a period of zero.
    pub fn new(period: u64) -> (timer: Option<SpawnTimer>)
        ensures
            timer is Some <==> period > 0,
            timer is Some ==> timer.unwrap()@ == (TimerView { period: period as nat, elapsed: 0 })
                && timer.unwrap().wf(),
    {
        if period > 0 {
            Some(SpawnTimer { period, elapsed: 0 })
        } else {
            None
        }
    }

    /// The time between two asteroids.
    pub fn period(&self) -> (period: u64)
        ensures
            period == self@.period,
    {
        self.period
    }

    /// The time that has passed since the last full period.
    pub fn elapsed(&self) -> (elapsed: u64)
        ensures
            elapsed == self@.elapsed,
    {
        self.elapsed
    }

    /// Lets `delta` pass. Returns how many periods came to an end; what is
    /// left of `delta` after them is carried over to the next call.
    pub fn tick(&mut self, delta: u64) -> (periods: u64)
        requires
            old(self).wf(),
        ensures
            periods == old(self)@.periods_in(delta as nat),
            final(self)@ == old(self)@.ticked(delta as nat),
            final(self).wf(),
    {
        let total: u128 = self.elapsed as u128 + delta as u128;
        let period: u128 = self.period as u128;
        let periods: u128 = total / period;
        let rest: u128 = total % period;
        proof {
            lemma_fundamental_div_mod(total as int, period as int);
            assert(periods <= u64::MAX) by (nonlinear_arith)
                requires
                    total == period * periods + rest,
                    0 <= rest,
                    1 <= period,
                    0 <= periods,
                    total <= period + 0xFFFF_FFFF_FFFF_FFFE,
            ;
        }
        self.elapsed = rest as u64;
        periods as u64
    }
}

/// The colours asteroids come in: two greys, two browns and a slate blue.
pub open spec fn default_palette() -> Seq<Rgb> {
    seq![
        Rgb { r: 169, g: 169, b: 169 },
        Rgb { r: 128, g: 128, b: 128 },
        Rgb { r: 108, g: 70, b: 0 },
        Rgb { r: 83, g: 53, b: 0 },
        Rgb { r: 59, g: 81, b: 94 },
    ]
}

/// The colours asteroids come in.
pub fn asteroid_palette() -> (palette: Vec<Rgb>)
    ensures
        palette@ == default_palette(),
{
    let mut palette: Vec<Rgb> = Vec::new();
    palette.push(Rgb { r: 169, g: 169, b: 169 });
    palette.push(Rgb { r: 128, g: 128, b: 128 });
    palette.push(Rgb { r: 108, g: 70, b: 0 });
    palette.push(Rgb { r: 83, g: 53, b: 0 });
    palette.push(Rgb { r: 59, g: 81, b: 94 });
    assert(palette@ =~= default_palette());
    palette
}

/// The order for one asteroid around `center`.
pub fn make_order(center: Point, config: &Config, color: Option<Rgb>) -> (order: SpawnOrder)
    ensures
        order == order_for(center, *config, color),
{
    SpawnOrder {
        center,
        distance: config.spawn_distance,
        radius: config.asteroid_radius,
        speed: config.asteroid_speed,
        color,
    }
}

/// Lets `delta` pass on the timer and orders one asteroid around the planet of
/// the scene if a period came to an end, however many did. The colour is drawn
/// from the palette with `rng`.
pub fn spawn_asteroids(
    timer: &mut SpawnTimer,
    delta: u64,
    scene: &Scene,
    config: &Config,
    palette: &Vec<Rgb>,
    rng: &mut ThreadRng,
) -> (order: Option<SpawnOrder>)
    requires
        old(timer).wf(),
    ensures
        final(timer)@ == old(timer)@.ticked(delta as nat),
        final(timer).wf(),
        order is Some <==> old(timer)@.periods_in(delta as nat) >= 1,
        order is Some ==> order.unwrap() == order_for(
            scene@.planet.position,
            *config,
            order.unwrap().color,
        ),
        order is Some ==> match order.unwrap().color {
            Some(color) => palette@.contains(color),
            None => palette@.len() == 0,
        },
{
    if timer.tick(delta) >= 1 {
        let color = choose_color(rng, palette);
        Some(make_order(scene.planet.position, config, color))
    } else {
        None
    }
}

/// Over any number of equal steps, the periods that come to an end are those
/// that fit into the time that has passed, and what is carried over is the
/// rest of that time.
pub proof fn lemma_periods_over(timer: TimerView, delta: nat, steps: nat)
    requires
        timer.wf(),
    ensures
        timer.ticked_times(delta, steps).wf(),
        timer.ticked_times(delta, steps).period == timer.period,
        timer.periods_over(delta, steps) == (timer.elapsed + steps * delta) / timer.period,
        timer.ticked_times(delta, steps).elapsed == (timer.elapsed + steps * delta) % timer.period,
    decreases steps,
{
    let p = timer.period as int;
    if steps == 0 {
        assert(steps * delta == 0) by (nonlinear_arith)
            requires
                steps == 0,
        ;
        lemma_fundamental_div_mod_converse(timer.elapsed as int, p, 0, timer.elapsed as int);
    } else {
        let before = (steps - 1) as nat;
        lemma_periods_over(timer, delta, before);
        let a = (timer.elapsed + before * delta) as int;
        let q = a / p;
        let r = a % p;
        let q2 = (r + delta) / p;
        let r2 = (r + delta) % p;
        lemma_fundamental_div_mod(a, p);
        lemma_fundamental_div_mod(r + delta, p);
        assert(a + delta == (q + q2) * p + r2) by (nonlinear_arith)
            requires
                a == p * q + r,
                r + delta == p * q2 + r2,
        ;
        assert(steps * delta == before * delta + delta) by (nonlinear_arith)
            requires
                steps == before + 1,
        ;
        lemma_fundamental_div_mod_converse(a + delta, p, q + q2, r2);
    }
}

/// With steps no longer than the period, one asteroid is ordered for every
/// period that has passed: after `steps` steps of `delta` each on a fresh
/// timer, `steps * delta / period` asteroids were ordered.
pub proof fn lemma_one_spawn_per_period(timer: TimerView, delta: nat, steps: nat)
    requires
        timer.wf(),
        delta <= timer.period,
    ensures
        timer.spawns_over(delta, steps) == timer.periods_over(delta, steps),
        timer.spawns_over(delta, steps) == (timer.elapsed + steps * delta) / timer.period,
    decreases steps,
{
    lemma_periods_over(timer, delta, steps);
    if steps > 0 {
        let before = (steps - 1) as nat;
        lemma_one_spawn_per_period(timer, delta, before);
        lemma_periods_over(timer, delta, before);
        let now = timer.ticked_times(delta, before);
        let p = timer.period as int;
        let sum = (now.elapsed + delta) as int;
        lemma_fundamental_div_mod(sum, p);
        assert(sum / p <= 1) by (nonlinear_arith)
            requires
                sum == p * (sum / p) + sum % p,
                0 <= sum % p,
                sum < 2 * p,
                p > 0,
        ;
        assert(sum / p >= 0) by (nonlinear_arith)
            requires
                sum == p * (sum / p) + sum % p,
                sum % p < p,
                sum >= 0,
                p > 0,
        ;
    }
}

} // verus!
