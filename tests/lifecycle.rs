use particles::emitter::Emitter;
use particles::mapper::{to_logical, MapError, Point, Rect};
use particles::particle::{Particle, Status, HEADING_UNITS};
use particles::sim::{Config, Simulation, UNIT};
use particles::store::{Store, Write};

fn full_rect() -> Rect {
    Rect { x: 0, y: 0, w: 600, h: 600 }
}

fn config_with_ttl(ttl_ms: u64) -> Config {
    Config { ttl_ms, ..Config::standard() }
}

#[test]
fn scenario_centre_maps_to_centre() {
    let r = to_logical(300, 300, 600, 600, full_rect());
    assert_eq!(r, Ok(Point { x: 300, y: 300 }));
}

#[test]
fn scenario_zero_viewport_is_rejected() {
    assert_eq!(to_logical(10, 10, 0, 0, full_rect()), Err(MapError::InvalidViewport));
    assert_eq!(to_logical(10, 10, 0, 600, full_rect()), Err(MapError::InvalidViewport));
    assert_eq!(to_logical(10, 10, 600, 0, full_rect()), Err(MapError::InvalidViewport));
    assert_eq!(to_logical(10, 10, -5, 600, full_rect()), Err(MapError::InvalidViewport));
}

#[test]
fn mapping_endpoints() {
    let rect = Rect { x: -40, y: 15, w: 800, h: 300 };
    assert_eq!(to_logical(0, 0, 640, 480, rect), Ok(Point { x: -40, y: 15 }));
    assert_eq!(to_logical(640, 480, 640, 480, rect), Ok(Point { x: 760, y: 315 }));
}

#[test]
fn mapping_rounds_down_and_adds_up() {
    let rect = Rect { x: 0, y: 0, w: 10, h: 10 };
    // 1 * 10 / 3 = 3.33.. -> 3; 2 * 10 / 3 = 6.66.. -> 6; 3 * 10 / 3 = 10
    let a = to_logical(1, 1, 3, 3, rect).unwrap();
    let b = to_logical(2, 2, 3, 3, rect).unwrap();
    let ab = to_logical(3, 3, 3, 3, rect).unwrap();
    assert_eq!(a, Point { x: 3, y: 3 });
    assert_eq!(b, Point { x: 6, y: 6 });
    assert_eq!(ab, Point { x: 10, y: 10 });
    assert!(ab.x == a.x + b.x || ab.x == a.x + b.x + 1);
    // a negative position rounds towards minus infinity
    assert_eq!(to_logical(-1, -1, 3, 3, rect), Ok(Point { x: -4, y: -4 }));
}

#[test]
fn mapping_with_scaled_rect() {
    let rect = Rect { x: 0, y: 0, w: 600 * UNIT as i32, h: 600 * UNIT as i32 };
    assert_eq!(
        to_logical(150, 450, 600, 600, rect),
        Ok(Point { x: 150 * UNIT, y: 450 * UNIT })
    );
}

#[test]
fn particle_alive_until_deadline() {
    let mut p = Particle::new(Point { x: 1, y: 2 }, 7, 0, 10_000);
    assert_eq!(p.deadline, 10_000);
    assert!(p.is_alive());
    p.expire(9_999);
    assert_eq!(p.status, Status::Alive);
    p.expire(10_000);
    assert_eq!(p.status, Status::Dead);
}

#[test]
fn dead_particle_never_revives() {
    let mut p = Particle::new(Point { x: 0, y: 0 }, 0, 100, 5);
    p.expire(105);
    assert_eq!(p.status, Status::Dead);
    p.expire(0);
    assert_eq!(p.status, Status::Dead);
    p.expire(104);
    assert!(!p.is_alive());
}

#[test]
fn defaults() {
    assert_eq!(Status::default(), Status::Alive);
    let p = Particle::default();
    assert_eq!(p.position, Point { x: 0, y: 0 });
    assert_eq!(p.deadline, 0);
    assert_eq!(p.status, Status::Alive);
}

#[test]
fn moved_particle_keeps_the_rest() {
    let p = Particle::new(Point { x: 1, y: 2 }, 9, 3, 4);
    let q = p.moved_to(Point { x: 5, y: 6 });
    assert_eq!(q.position, Point { x: 5, y: 6 });
    assert_eq!((q.heading, q.deadline, q.status), (9, 7, Status::Alive));
}

#[test]
fn scenario_three_spawns_share_position() {
    let mut e = Emitter::new(12, -7);
    let ps: Vec<Particle> = (0..3).map(|_| e.spawn(50, 10_000)).collect();
    for p in &ps {
        assert_eq!(p.position, Point { x: 12, y: -7 });
        assert!(p.heading < HEADING_UNITS);
        assert_eq!(p.deadline, 10_050);
        assert_eq!(p.status, Status::Alive);
    }
}

#[test]
fn headings_are_drawn() {
    let mut e = Emitter::new(0, 0);
    let hs: Vec<u32> = (0..64).map(|_| e.spawn(0, 1).heading).collect();
    assert!(hs.iter().all(|h| *h < HEADING_UNITS));
    assert!(hs.iter().any(|h| *h != hs[0]));
}

#[test]
fn emitter_move_keeps_earlier_particles() {
    let mut e = Emitter::new(1, 1);
    let first = e.spawn(0, 100);
    e.set_position(9, 9);
    assert_eq!(e.position(), Point { x: 9, y: 9 });
    let second = e.spawn(0, 100);
    assert_eq!(first.position, Point { x: 1, y: 1 });
    assert_eq!(second.position, Point { x: 9, y: 9 });
    e.set_position(9, 9);
    assert_eq!(e.position(), Point { x: 9, y: 9 });
}

#[test]
fn store_writes_are_hidden_until_publish() {
    let mut s = Store::new();
    assert!(s.read().is_empty());
    let p = Particle::new(Point { x: 1, y: 1 }, 0, 0, 10);
    s.push(p);
    assert!(s.read().is_empty());
    assert_eq!(s.back_len(), 1);
    s.publish();
    assert_eq!(s.read().as_slice(), &[p]);
    s.push(p);
    s.move_particle(0, Point { x: 4, y: 4 });
    assert_eq!(s.read().as_slice(), &[p]);
    s.publish();
    assert_eq!(s.read().len(), 2);
    assert_eq!(s.read()[0].position, Point { x: 4, y: 4 });
    assert_eq!(s.read()[1], p);
}

#[test]
fn store_expire_and_prune() {
    let mut s = Store::new();
    let short = Particle::new(Point { x: 1, y: 0 }, 0, 0, 5);
    let long = Particle::new(Point { x: 2, y: 0 }, 0, 0, 50);
    s.push(short);
    s.push(long);
    s.push(short);
    s.publish();
    s.expire_all(5);
    assert_eq!(s.read().len(), 3);
    s.prune();
    assert_eq!(s.back_len(), 1);
    s.publish();
    assert_eq!(s.read().as_slice(), &[long]);
}

#[test]
fn scenario_ttl_boundary_through_ticks() {
    let mut sim = Simulation::new(0, 0, config_with_ttl(10_000));
    let first = sim.tick(0);
    assert_eq!(first.deadline, 10_000);
    assert_eq!(sim.read().as_slice(), &[first]);
    sim.tick(9_999);
    assert!(sim.read().iter().any(|p| p.deadline == 10_000));
    assert!(sim.read().iter().all(|p| p.status == Status::Alive));
    sim.tick(10_000);
    assert!(sim.read().iter().all(|p| p.deadline != 10_000));
    assert_eq!(sim.read().len(), 2);
}

#[test]
fn tick_spawns_at_emitter_and_publishes() {
    let mut sim = Simulation::new(3, 4, Config::standard());
    let p = sim.tick(1);
    assert_eq!(p.position, Point { x: 3, y: 4 });
    assert_eq!(p.deadline, 10_001);
    assert_eq!(sim.read().as_slice(), &[p]);
    assert_eq!(sim.pending_len(), 1);
}

#[test]
fn zero_ttl_particle_is_culled_at_once() {
    let mut sim = Simulation::new(0, 0, config_with_ttl(0));
    sim.tick(7);
    assert!(sim.read().is_empty());
}

#[test]
fn pointer_moves_emitter_only() {
    let mut sim = Simulation::new(0, 0, Config::standard());
    let p = sim.tick(0);
    assert_eq!(sim.point_emitter(300, 150, 600, 600, full_rect()), Ok(()));
    assert_eq!(sim.emitter_position(), Point { x: 300, y: 150 });
    assert_eq!(sim.read().as_slice(), &[p]);
    let q = sim.tick(1);
    assert_eq!(q.position, Point { x: 300, y: 150 });
    assert_eq!(sim.read()[0].position, Point { x: 0, y: 0 });
}

#[test]
fn pointer_on_bad_viewport_leaves_emitter() {
    let mut sim = Simulation::new(5, 5, Config::standard());
    assert_eq!(
        sim.point_emitter(300, 150, 0, 600, full_rect()),
        Err(MapError::InvalidViewport)
    );
    assert_eq!(sim.emitter_position(), Point { x: 5, y: 5 });
}

#[test]
fn move_particle_is_seen_after_next_tick() {
    let mut sim = Simulation::new(0, 0, Config::standard());
    sim.tick(0);
    assert_eq!(sim.pending_len(), 1);
    sim.move_particle(0, Point { x: 42, y: -42 });
    assert_eq!(sim.read()[0].position, Point { x: 0, y: 0 });
    sim.tick(1);
    assert_eq!(sim.read()[0].position, Point { x: 42, y: -42 });
    assert_eq!(sim.read()[1].position, Point { x: 0, y: 0 });
}

#[test]
fn standard_config() {
    let c = Config::standard();
    assert_eq!(c.ttl_ms, 10_000);
    assert_eq!(c.motion_step, 5_000);
    assert_eq!(c.emitter_radius, 25_000);
    assert_eq!(c.particle_radius, 5_000);
    let sim = Simulation::new(0, 0, c);
    assert_eq!(sim.config(), c);
}

#[test]
fn store_write_steps() {
    let mut s = Store::new();
    let a = Particle::new(Point { x: 1, y: 1 }, 0, 0, 5);
    let b = Particle::new(Point { x: 2, y: 2 }, 0, 0, 50);
    s.write(Write::Push(a));
    s.write(Write::Push(b));
    s.write(Write::Move(1, Point { x: 8, y: 8 }));
    s.write(Write::Move(7, Point { x: 9, y: 9 }));
    s.write(Write::Expire(10));
    assert!(s.read().is_empty());
    s.write(Write::Prune);
    assert!(s.read().is_empty());
    s.publish();
    assert_eq!(s.read().as_slice(), &[b.moved_to(Point { x: 8, y: 8 })]);
}
