use particles::particle::{Particle, FADED_ALPHA, INITIAL_ALPHA, PARTICLE_SIZE, UNIT};
use particles::world::World;

fn area() -> World {
    World::new(1280 * UNIT, 960 * UNIT)
}

fn assert_spawned(p: &Particle, width: i64, height: i64) {
    assert_eq!(p.width, PARTICLE_SIZE);
    assert_eq!(p.height, PARTICLE_SIZE);
    assert!(0 <= p.position.x && p.position.x <= width);
    assert_eq!(p.position.y, height);
    assert_eq!(p.velocity.x, 0);
    assert!(-2 * UNIT <= p.velocity.y && p.velocity.y < 0);
    assert_eq!(p.acceleration.x, 0);
    assert!(0 <= p.acceleration.y && p.acceleration.y < 150_000);
    assert_eq!(p.color.red, 1_000_000);
    assert_eq!(p.color.green, 1_000_000);
    assert_eq!(p.color.blue, 1_000_000);
    assert_eq!(p.color.alpha, INITIAL_ALPHA);
}

#[test]
fn new_world_is_empty() {
    let w = area();
    assert_eq!(w.particles.len(), 0);
    assert_eq!(w.current_turn, 0);
    assert_eq!(w.width, 1_280_000_000);
    assert_eq!(w.height, 960_000_000);
}

#[test]
fn spawn_appends_in_order() {
    let mut w = area();
    w.add_particles(5);
    assert_eq!(w.particles.len(), 5);
    let before = w.particles.clone();
    w.add_particles(3);
    assert_eq!(w.particles.len(), 8);
    assert_eq!(&w.particles[..5], &before[..]);
    for p in &w.particles {
        assert_spawned(p, w.width, w.height);
    }
}

#[test]
fn spawn_zero_and_negative_quantities() {
    let mut w = area();
    w.add_particles(0);
    assert_eq!(w.particles.len(), 0);
    w.add_particles(-4);
    assert_eq!(w.particles.len(), 4);
}

#[test]
fn spawn_positions_spread_over_the_width() {
    let mut w = area();
    w.add_particles(200);
    let distinct = w.particles.iter().filter(|p| p.position.x != w.particles[0].position.x).count();
    assert!(distinct > 0);
}

#[test]
fn cull_never_underflows() {
    let mut w = area();
    w.remove_particles(3);
    assert_eq!(w.particles.len(), 0);
    w.add_particles(2);
    w.remove_particles(5);
    assert_eq!(w.particles.len(), 0);
    w.add_particles(10);
    w.remove_particles(4);
    assert_eq!(w.particles.len(), 6);
    w.remove_particles(-2);
    assert_eq!(w.particles.len(), 4);
}

#[test]
fn cull_removes_oldest_when_none_faded() {
    let mut w = area();
    w.particles.push(Particle::new(1, 0, -1, 0));
    w.particles.push(Particle::new(2, 0, -1, 0));
    w.particles.push(Particle::new(3, 0, -1, 0));
    w.remove_particles(1);
    let xs: Vec<i64> = w.particles.iter().map(|p| p.position.x).collect();
    assert_eq!(xs, vec![2, 3]);
}

#[test]
fn cull_prefers_first_faded() {
    let mut w = area();
    for x in 1..=4 {
        w.particles.push(Particle::new(x, 0, -1, 0));
    }
    w.particles[1].color.alpha = FADED_ALPHA;
    w.particles[2].color.alpha = FADED_ALPHA - 1;
    w.particles[3].color.alpha = 5;
    w.remove_particles(1);
    let xs: Vec<i64> = w.particles.iter().map(|p| p.position.x).collect();
    assert_eq!(xs, vec![1, 2, 4]);
    w.remove_particles(1);
    let xs: Vec<i64> = w.particles.iter().map(|p| p.position.x).collect();
    assert_eq!(xs, vec![1, 2]);
    w.remove_particles(1);
    let xs: Vec<i64> = w.particles.iter().map(|p| p.position.x).collect();
    assert_eq!(xs, vec![2]);
}

#[test]
fn particle_update_exact_values() {
    let mut p = Particle::new(7, 960 * UNIT, -UNIT, 100_000);
    p.update();
    assert_eq!(p.velocity.y, -900_000);
    assert_eq!(p.position.y, 960 * UNIT - 900_000);
    assert_eq!(p.position.x, 7);
    assert_eq!(p.acceleration.y, 70_000);
    assert_eq!(p.color.alpha, 985_050);
    p.update();
    assert_eq!(p.velocity.y, -830_000);
    assert_eq!(p.position.y, 960 * UNIT - 1_730_000);
    assert_eq!(p.acceleration.y, 49_000);
    assert_eq!(p.color.alpha, 980_124);
}

#[test]
fn alpha_never_rises_and_eventually_fades() {
    let mut p = Particle::new(0, 0, 0, 0);
    let mut ticks = 0;
    while !p.is_faded() {
        let before = p.color.alpha;
        p.update();
        assert!(p.color.alpha <= before);
        ticks += 1;
        assert!(ticks < 2000);
    }
    assert!(p.color.alpha < FADED_ALPHA);
}

#[test]
fn acceleration_decays_to_zero() {
    let mut p = Particle::new(0, 0, 0, 149_999);
    let mut ticks = 0;
    while p.acceleration.y > 0 {
        let before = p.acceleration.y;
        p.update();
        assert!(p.acceleration.y < before);
        assert_eq!(p.acceleration.y, before * 7 / 10);
        ticks += 1;
    }
    assert!(ticks > 10);
    p.update();
    assert_eq!(p.acceleration.y, 0);
}

#[test]
fn position_saturates_instead_of_overflowing() {
    let mut p = Particle::new(0, i64::MAX - 10, 1000, 0);
    p.update();
    assert_eq!(p.position.y, i64::MAX);
    let mut q = Particle::new(0, i64::MIN + 10, -1000, 0);
    q.update();
    assert_eq!(q.position.y, i64::MIN);
}

#[test]
fn advance_culls_then_moves() {
    let mut w = area();
    w.particles.push(Particle::new(1, 0, -UNIT, 100_000));
    w.particles.push(Particle::new(2, 0, -UNIT, 100_000));
    w.particles.push(Particle::new(3, 0, -UNIT, 100_000));
    w.advance(-2);
    assert_eq!(w.current_turn, 1);
    assert_eq!(w.particles.len(), 1);
    let p = &w.particles[0];
    assert_eq!(p.position.x, 3);
    assert_eq!(p.position.y, -900_000);
    assert_eq!(p.color.alpha, 985_050);
    w.advance(3);
    assert_eq!(w.particles.len(), 0);
    assert_eq!(w.current_turn, 2);
}

#[test]
fn advance_spawns_above_threshold() {
    let mut w = area();
    w.add_particles(2);
    let first = w.particles[0];
    w.advance(5);
    assert_eq!(w.particles.len(), 7);
    let mut expected = first;
    expected.update();
    assert_eq!(w.particles[0], expected);
    for p in &w.particles[2..] {
        assert_eq!(p.color.alpha, 985_050);
    }
}

#[test]
fn first_tick_scenario() {
    let mut w = area();
    w.add_particles(1000);
    assert_eq!(w.particles.len(), 1000);
    let before = w.particles.clone();
    w.update();
    assert_eq!(w.current_turn, 1);
    let n = w.particles.len();
    assert!((997..=1000).contains(&n));
    for p in &w.particles {
        assert_eq!(p.color.alpha, 985_050);
        let origin = before
            .iter()
            .find(|q| {
                q.position.x == p.position.x
                    && q.acceleration.y * 7 / 10 == p.acceleration.y
                    && q.velocity.y + q.acceleration.y == p.velocity.y
            })
            .expect("every survivor comes from the spawned population");
        assert_eq!(p.position.y, origin.position.y + p.velocity.y);
    }
}

#[test]
fn ticks_never_grow_the_population() {
    let mut w = area();
    w.add_particles(20);
    let mut last = w.particles.len();
    for _ in 0..50 {
        w.update();
        let n = w.particles.len();
        assert!(n <= last && last - n <= 3);
        last = n;
    }
    assert_eq!(w.current_turn, 50);
}
