use planet_defense::config::Config;
use planet_defense::geometry::Point;
use planet_defense::scene::Scene;
use planet_defense::spawn::{asteroid_palette, make_order, spawn_asteroids, Rgb, SpawnOrder, SpawnTimer};

const SECOND: u64 = 1_000_000_000;

#[test]
fn there_is_no_timer_without_a_period() {
    assert!(SpawnTimer::new(0).is_none());
    let timer = SpawnTimer::new(SECOND).unwrap();
    assert_eq!(timer.period(), SECOND);
    assert_eq!(timer.elapsed(), 0);
}

#[test]
fn the_timer_fires_once_every_period() {
    let mut timer = SpawnTimer::new(SECOND).unwrap();
    let mut fired = Vec::new();
    for _ in 0..12 {
        fired.push(timer.tick(SECOND / 4));
    }
    assert_eq!(fired, vec![0, 0, 0, 1, 0, 0, 0, 1, 0, 0, 0, 1]);
    assert_eq!(timer.elapsed(), 0);
}

#[test]
fn the_timer_carries_the_rest_over() {
    let mut timer = SpawnTimer::new(10).unwrap();
    assert_eq!(timer.tick(7), 0);
    assert_eq!(timer.elapsed(), 7);
    assert_eq!(timer.tick(7), 1);
    assert_eq!(timer.elapsed(), 4);
    assert_eq!(timer.tick(7), 1);
    assert_eq!(timer.elapsed(), 1);
    assert_eq!(timer.tick(7), 0);
    assert_eq!(timer.elapsed(), 8);
    assert_eq!(timer.tick(0), 0);
    assert_eq!(timer.elapsed(), 8);
    assert_eq!(timer.tick(2), 1);
    assert_eq!(timer.elapsed(), 0);
}

#[test]
fn a_long_step_ends_several_periods() {
    let mut timer = SpawnTimer::new(10).unwrap();
    assert_eq!(timer.tick(35), 3);
    assert_eq!(timer.elapsed(), 5);
    assert_eq!(timer.tick(5), 1);
    assert_eq!(timer.elapsed(), 0);
}

#[test]
fn the_timer_stands_the_longest_steps() {
    let mut timer = SpawnTimer::new(1).unwrap();
    assert_eq!(timer.tick(u64::MAX), u64::MAX);
    assert_eq!(timer.elapsed(), 0);
    let mut timer = SpawnTimer::new(u64::MAX).unwrap();
    assert_eq!(timer.tick(u64::MAX - 1), 0);
    assert_eq!(timer.tick(u64::MAX), 1);
    assert_eq!(timer.elapsed(), u64::MAX - 1);
    assert_eq!(timer.tick(u64::MAX), 1);
    assert_eq!(timer.elapsed(), u64::MAX - 1);
}

#[test]
fn the_number_of_spawns_is_the_number_of_periods() {
    let config = Config::default();
    let scene = Scene::new(0, Point { x: 0, y: 0 });
    let palette = asteroid_palette();
    let mut rng = rand::thread_rng();
    let mut timer = SpawnTimer::new(config.spawn_period).unwrap();
    let step = 16_666_667;
    let mut spawned: u64 = 0;
    for n in 1..=600u64 {
        if spawn_asteroids(&mut timer, step, &scene, &config, &palette, &mut rng).is_some() {
            spawned += 1;
        }
        assert_eq!(spawned, n * step / config.spawn_period);
        assert_eq!(timer.elapsed(), n * step % config.spawn_period);
    }
    assert_eq!(spawned, 10);
}

#[test]
fn an_order_places_the_asteroid_around_the_planet() {
    let config = Config::default();
    let scene = Scene::new(0, Point { x: 12, y: -7 });
    let palette = asteroid_palette();
    let mut rng = rand::thread_rng();
    let mut timer = SpawnTimer::new(config.spawn_period).unwrap();
    assert_eq!(spawn_asteroids(&mut timer, SECOND - 1, &scene, &config, &palette, &mut rng), None);
    let order = spawn_asteroids(&mut timer, 1, &scene, &config, &palette, &mut rng).unwrap();
    assert_eq!(order.center, Point { x: 12, y: -7 });
    assert_eq!(order.distance, 800);
    assert_eq!(order.radius, 10);
    assert_eq!(order.speed, 1);
    assert!(palette.contains(&order.color.unwrap()));
}

#[test]
fn a_long_step_orders_one_asteroid() {
    let config = Config::default();
    let scene = Scene::new(0, Point { x: 0, y: 0 });
    let palette = asteroid_palette();
    let mut rng = rand::thread_rng();
    let mut timer = SpawnTimer::new(config.spawn_period).unwrap();
    assert!(spawn_asteroids(&mut timer, 5 * SECOND + 3, &scene, &config, &palette, &mut rng).is_some());
    assert_eq!(timer.elapsed(), 3);
    assert!(spawn_asteroids(&mut timer, 3, &scene, &config, &palette, &mut rng).is_none());
}

#[test]
fn an_empty_palette_gives_no_colour() {
    let config = Config::default();
    let scene = Scene::new(0, Point { x: 0, y: 0 });
    let mut rng = rand::thread_rng();
    let mut timer = SpawnTimer::new(1).unwrap();
    let order = spawn_asteroids(&mut timer, 1, &scene, &config, &vec![], &mut rng).unwrap();
    assert_eq!(order.color, None);
}

#[test]
fn every_colour_of_the_palette_is_drawn() {
    let config = Config::default();
    let scene = Scene::new(0, Point { x: 0, y: 0 });
    let palette = asteroid_palette();
    let mut rng = rand::thread_rng();
    let mut timer = SpawnTimer::new(1).unwrap();
    let mut seen = [false; 5];
    for _ in 0..5000 {
        let order = spawn_asteroids(&mut timer, 1, &scene, &config, &palette, &mut rng).unwrap();
        let color = order.color.unwrap();
        let index = palette.iter().position(|c| *c == color).unwrap();
        seen[index] = true;
    }
    assert_eq!(seen, [true; 5]);
}

#[test]
fn the_palette_has_five_colours() {
    assert_eq!(
        asteroid_palette(),
        vec![
            Rgb { r: 169, g: 169, b: 169 },
            Rgb { r: 128, g: 128, b: 128 },
            Rgb { r: 108, g: 70, b: 0 },
            Rgb { r: 83, g: 53, b: 0 },
            Rgb { r: 59, g: 81, b: 94 },
        ]
    );
}

#[test]
fn an_order_carries_the_tunables() {
    let mut config = Config::default();
    config.spawn_distance = 5;
    config.asteroid_radius = 6;
    config.asteroid_speed = 7;
    let color = Some(Rgb { r: 1, g: 2, b: 3 });
    assert_eq!(
        make_order(Point { x: 1, y: 2 }, &config, color),
        SpawnOrder { center: Point { x: 1, y: 2 }, distance: 5, radius: 6, speed: 7, color }
    );
}

#[test]
fn the_tunables_have_their_usual_values() {
    let config = Config::default();
    assert_eq!(config.spawn_period, SECOND);
    assert_eq!(config.spawn_distance, 800);
    assert_eq!(config.asteroid_radius, 10);
    assert_eq!(config.asteroid_speed, 1);
    assert_eq!(config.ship_speed, 2400);
    assert_eq!(config.bump_force, 4);
    assert_eq!(config.trigger_distance, 400);
    assert_eq!(config.interest_distance, 500);
    assert_eq!(config.planet_sight, 100);
    assert_eq!(config.loot_half_size, 25);
}
