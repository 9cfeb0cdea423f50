use mirror_bounce::arena::{
    Collider, ColliderKind, MirrorPair, MirrorPlacement, ACTOR_RADIUS, FULL_TURN, MIRROR_SPAN_X,
    MIRROR_SPAN_Y, UNIT,
};
use mirror_bounce::geometry::Point;
use mirror_bounce::random::generate_mirror_pair;
use mirror_bounce::sim::{apply_input, integrate, resolve_collisions, rotate, ActorState, HeldInputs};
use mirror_bounce::world::World;
use rand::rngs::StdRng;
use rand::SeedableRng;

const IDLE: HeldInputs = HeldInputs { left: false, right: false, up: false, down: false };

fn actor_at(x: i64, y: i64, vx: i64, vy: i64) -> ActorState {
    ActorState {
        position: Point { x, y },
        orientation: 0,
        velocity: Point { x: vx, y: vy },
        radius: ACTOR_RADIUS,
        mirrors_present: false,
    }
}

fn wall(x: i64, y: i64, hx: i64, hy: i64) -> Collider {
    Collider {
        center: Point { x, y },
        half_extent: Point { x: hx, y: hy },
        rotation: 0,
        kind: ColliderKind::Wall,
    }
}

fn centered_pair() -> MirrorPair {
    MirrorPair {
        first: MirrorPlacement { x: 0, y: 0, rotation: 0 },
        second: MirrorPlacement { x: 500 * UNIT, y: 200 * UNIT, rotation: 1000 },
    }
}

#[test]
fn new_world_has_four_walls_and_no_mirrors() {
    let w = World::new();
    assert_eq!(w.colliders.len(), 4);
    assert!(w.colliders.iter().all(|c| c.kind == ColliderKind::Wall));
    assert_eq!(w.mirror_count(), 0);
    assert!(!w.actor.mirrors_present);
    assert_eq!(w.actor.radius, 20 * UNIT);
}

#[test]
fn rotate_adds_angular_speed_times_dt() {
    let mut a = actor_at(0, 0, 0, 0);
    rotate(&mut a, 16);
    assert_eq!(a.orientation, 80);
    rotate(&mut a, 16);
    assert_eq!(a.orientation, 160);
}

#[test]
fn integrate_moves_by_velocity_times_dt() {
    let mut a = actor_at(1000, -1000, 50, -25);
    integrate(&mut a, 16);
    assert_eq!(a.position, Point { x: 1800, y: -1400 });
    assert_eq!(a.velocity, Point { x: 50, y: -25 });
}

#[test]
fn each_held_direction_changes_velocity() {
    let mut a = actor_at(0, 0, 0, 0);
    apply_input(&mut a, HeldInputs { left: false, right: true, up: true, down: false });
    assert_eq!(a.velocity, Point { x: 50, y: 50 });
    apply_input(&mut a, HeldInputs { left: true, right: false, up: false, down: true });
    assert_eq!(a.velocity, Point { x: 0, y: 0 });
    apply_input(&mut a, HeldInputs { left: true, right: true, up: true, down: true });
    assert_eq!(a.velocity, Point { x: 0, y: 0 });
}

#[test]
fn velocity_is_not_clamped() {
    let mut a = actor_at(0, 0, 600, -600);
    apply_input(&mut a, HeldInputs { left: false, right: true, up: false, down: true });
    assert_eq!(a.velocity, Point { x: 650, y: -650 });
}

#[test]
fn wall_hit_reflects_one_axis_only() {
    let mut a = actor_at(875 * UNIT, 0, 50, 30);
    let walls = vec![wall(900 * UNIT, 0, 5 * UNIT, 505 * UNIT)];
    let hit = resolve_collisions(&mut a, &walls);
    assert!(!hit);
    assert_eq!(a.velocity, Point { x: -50, y: 30 });
    assert!(!a.mirrors_present);

    let mut b = actor_at(0, 490 * UNIT, 50, 30);
    let top = vec![wall(0, 500 * UNIT, 905 * UNIT, 5 * UNIT)];
    assert!(!resolve_collisions(&mut b, &top));
    assert_eq!(b.velocity, Point { x: 50, y: -30 });
}

#[test]
fn two_walls_hit_in_one_tick_are_each_answered() {
    let mut a = actor_at(880 * UNIT, 480 * UNIT, 50, 30);
    let walls = vec![
        wall(900 * UNIT, 0, 5 * UNIT, 505 * UNIT),
        wall(0, 500 * UNIT, 905 * UNIT, 5 * UNIT),
        wall(900 * UNIT, 0, 5 * UNIT, 505 * UNIT),
    ];
    resolve_collisions(&mut a, &walls);
    assert_eq!(a.velocity, Point { x: 50, y: -30 });
}

#[test]
fn actor_moving_right_bounces_off_right_wall() {
    let mut a = actor_at(0, 0, 50, 0);
    let walls = vec![wall(900 * UNIT, 0, 5 * UNIT, 505 * UNIT)];
    let mut ticks = 0;
    while a.position.x < 875 * UNIT {
        assert!(!resolve_collisions(&mut a, &walls));
        assert_eq!(a.velocity.x, 50);
        integrate(&mut a, 16);
        ticks += 1;
    }
    assert_eq!(ticks, 1094);
    assert_eq!(a.position.x, 875_200);
    resolve_collisions(&mut a, &walls);
    assert_eq!(a.velocity.x, -50);
    assert_eq!(a.velocity.y, 0);
}

#[test]
fn lifecycle_spawns_pair_then_waits() {
    let mut w = World::new();
    w.update_mirrors(false, Some(centered_pair()));
    assert_eq!(w.mirror_count(), 2);
    assert_eq!(w.colliders.len(), 6);
    assert!(w.actor.mirrors_present);
    assert_eq!(w.colliders[4].center, Point { x: 0, y: 0 });
    assert_eq!(w.colliders[5].center, Point { x: 500 * UNIT, y: 200 * UNIT });
    assert_eq!(w.colliders[5].rotation, 1000);
    assert_eq!(w.colliders[5].half_extent, Point { x: 100 * UNIT, y: 20 * UNIT });
    w.update_mirrors(false, None);
    assert_eq!(w.mirror_count(), 2);
    assert_eq!(w.colliders.len(), 6);
    assert!(w.actor.mirrors_present);
}

#[test]
fn mirror_hit_removes_both_mirrors_in_same_tick() {
    let mut w = World::new();
    w.update_mirrors(false, Some(centered_pair()));
    // The actor rests at the center, on top of the first mirror.
    w.step(IDLE, 16, None);
    assert_eq!(w.mirror_count(), 0);
    assert_eq!(w.colliders.len(), 4);
    assert!(!w.actor.mirrors_present);
    assert!(w.colliders.iter().all(|c| c.kind == ColliderKind::Wall));
}

#[test]
fn hitting_second_mirror_also_removes_both() {
    let mut w = World::new();
    w.update_mirrors(false, Some(centered_pair()));
    w.actor.position = Point { x: 500 * UNIT, y: 230 * UNIT };
    w.actor.velocity = Point { x: 0, y: -10 };
    w.step(IDLE, 16, None);
    assert_eq!(w.mirror_count(), 0);
    assert!(!w.actor.mirrors_present);
    assert_eq!(w.actor.velocity, Point { x: 0, y: 10 });
}

#[test]
fn lifecycle_hit_clears_flag() {
    let mut w = World::new();
    w.update_mirrors(false, Some(centered_pair()));
    w.update_mirrors(true, None);
    assert_eq!(w.mirror_count(), 0);
    assert!(!w.actor.mirrors_present);
}

#[test]
fn step_spawns_mirrors_when_absent() {
    let mut w = World::new();
    let mut pair = centered_pair();
    pair.first = MirrorPlacement { x: -700 * UNIT, y: 0, rotation: 0 };
    w.step(HeldInputs { left: false, right: true, up: false, down: false }, 16, Some(pair));
    assert_eq!(w.mirror_count(), 2);
    assert!(w.actor.mirrors_present);
    assert_eq!(w.actor.velocity, Point { x: 50, y: 0 });
    assert_eq!(w.actor.position, Point { x: 800, y: 0 });
    assert_eq!(w.actor.orientation, 80);
}

#[test]
fn idle_ticks_turn_steadily_and_keep_velocity() {
    let mut w = World::new();
    w.update_mirrors(false, Some(MirrorPair {
        first: MirrorPlacement { x: -700 * UNIT, y: -250 * UNIT, rotation: 5 },
        second: MirrorPlacement { x: 700 * UNIT, y: 250 * UNIT, rotation: 6283 },
    }));
    w.actor.velocity = Point { x: 20, y: -10 };
    let mut last = w.actor.orientation;
    for _ in 0..50 {
        w.step(IDLE, 16, None);
        assert_eq!(w.actor.orientation, last + 80);
        assert_eq!(w.actor.velocity, Point { x: 20, y: -10 });
        last = w.actor.orientation;
    }
    assert_eq!(w.actor.position, Point { x: 16_000, y: -8_000 });
}

#[test]
fn drawn_pairs_stay_in_region() {
    let mut rng = StdRng::seed_from_u64(7);
    let mut xs = Vec::new();
    for _ in 0..200 {
        let pair = generate_mirror_pair(&mut rng);
        xs.push(pair.first.x);
        xs.push(pair.second.rotation);
        for p in [pair.first, pair.second] {
            assert!(-MIRROR_SPAN_X <= p.x && p.x < MIRROR_SPAN_X);
            assert!(-MIRROR_SPAN_Y <= p.y && p.y < MIRROR_SPAN_Y);
            assert!(0 <= p.rotation && p.rotation < FULL_TURN);
        }
    }
    xs.sort();
    xs.dedup();
    assert!(xs.len() > 300);
}

#[test]
fn seeded_runs_repeat() {
    let mut a = StdRng::seed_from_u64(42);
    let mut b = StdRng::seed_from_u64(42);
    assert_eq!(generate_mirror_pair(&mut a), generate_mirror_pair(&mut b));
}

#[test]
fn mirror_count_is_zero_or_two_over_many_ticks() {
    let mut rng = StdRng::seed_from_u64(3);
    let mut w = World::new();
    let held = [
        HeldInputs { left: false, right: true, up: true, down: false },
        IDLE,
        HeldInputs { left: true, right: false, up: false, down: true },
    ];
    let mut removals = 0;
    for k in 0..3000 {
        let before = w.actor.mirrors_present;
        w.tick(held[(k / 40) % 3], 16, &mut rng);
        let n = w.mirror_count();
        assert!(n == 0 || n == 2);
        assert_eq!(w.actor.mirrors_present, n == 2);
        assert_eq!(w.colliders.len(), 4 + n);
        if before && n == 0 {
            removals += 1;
        }
    }
    assert!(removals > 0);
}
