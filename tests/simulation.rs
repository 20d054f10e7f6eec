use platformer::geometry::{collide, rects_overlap, Collision, Extent, Point, Rect, UNIT};
use platformer::motion::{direction_from_keys, integrate_velocity, Direction, Keys, Speed, Velocity, MAX_FRAME_MICROS};
use platformer::world::{
    is_grounded, physics_step, Body, ColliderKind, Config, SimError, StaticCollider, World,
    COORD_LIMIT, PLAYER_HEIGHT, PLAYER_START_Y, PLAYER_WIDTH,
};

const SECOND: i64 = 1_000_000;

fn rect(x: i64, y: i64, w: i64, h: i64) -> Rect {
    Rect {
        center: Point { x: x * UNIT, y: y * UNIT },
        size: Extent { w: (w * UNIT) as u64, h: (h * UNIT) as u64 },
    }
}

fn solid(r: Rect) -> StaticCollider {
    StaticCollider { rect: r, kind: ColliderKind::Solid }
}

fn keys(left: bool, right: bool, up: bool) -> Keys {
    Keys { left, right, up }
}

fn no_keys() -> Keys {
    keys(false, false, false)
}

fn body_at(x: i64, y: i64) -> Body {
    let c = Config::default();
    Body {
        rect: Rect { center: Point { x, y }, size: Extent { w: PLAYER_WIDTH, h: PLAYER_HEIGHT } },
        velocity: Velocity { x: 0, y: 0 },
        gravity: c.gravity,
        grounded: false,
        max_speed: c.max_speed,
    }
}

#[test]
fn opposite_horizontal_keys_cancel() {
    let speed = Config::default().max_speed;
    for up in [false, true] {
        let dir = direction_from_keys(keys(true, true, up));
        assert_eq!(dir.x, 0);
        for dt in [0, 1, 16_667, SECOND, MAX_FRAME_MICROS] {
            assert_eq!(integrate_velocity(dt, dir, speed).x, 0);
        }
    }
}

#[test]
fn directions_from_single_keys() {
    assert_eq!(direction_from_keys(keys(true, false, false)), Direction { x: -1, y: 0 });
    assert_eq!(direction_from_keys(keys(false, true, false)), Direction { x: 1, y: 0 });
    assert_eq!(direction_from_keys(keys(false, false, true)), Direction { x: 0, y: 1 });
    assert_eq!(direction_from_keys(no_keys()), Direction { x: 0, y: 0 });
}

#[test]
fn velocity_is_time_times_direction_times_speed() {
    let speed = Speed { x: 500, y: 200 };
    let v = integrate_velocity(16_000, direction_from_keys(keys(false, true, true)), speed);
    assert_eq!(v, Velocity { x: 8_000_000, y: 3_200_000 });
    let v = integrate_velocity(SECOND, direction_from_keys(keys(true, false, false)), speed);
    assert_eq!(v, Velocity { x: -500 * UNIT, y: 0 });
}

#[test]
fn velocity_scales_linearly_with_time() {
    let speed = Speed { x: 500, y: 200 };
    let dir = direction_from_keys(keys(false, true, true));
    let (t1, t2) = (250_000i64, 1_000_000i64);
    let v1 = integrate_velocity(t1, dir, speed);
    let v2 = integrate_velocity(t2, dir, speed);
    assert_eq!(v1.x * t2, v2.x * t1);
    assert_eq!(v1.y * t2, v2.y * t1);
    assert_eq!(v1.x / t1, v2.x / t2);
    assert_eq!(v1.y / t1, v2.y / t2);
}

#[test]
fn overlap_is_symmetric() {
    let shapes = [
        rect(0, 0, 10, 10),
        rect(5, 5, 10, 10),
        rect(10, 0, 10, 10),
        rect(11, 0, 10, 10),
        rect(0, 0, 100, 2),
        rect(-30, 7, 4, 40),
    ];
    for a in shapes.iter() {
        for b in shapes.iter() {
            assert_eq!(rects_overlap(a, b), rects_overlap(b, a));
        }
    }
    assert!(rects_overlap(&shapes[0], &shapes[2]));
    assert!(!rects_overlap(&shapes[0], &shapes[3]));
}

#[test]
fn touching_bottom_edge_is_top_contact() {
    // Body at y=0 with half-height 15 rests on a collider whose top is y=-15.
    let body = rect(0, 0, 120, 30);
    let floor = rect(0, -20, 300, 10);
    assert_eq!(collide(&body, &floor), Some(Collision::Top));
    assert!(is_grounded(&body, &vec![solid(floor)]));
    // Collider top at y=15, body bottom edge on it.
    let body = rect(0, 30, 120, 30);
    let floor = rect(0, 10, 300, 10);
    assert_eq!(collide(&body, &floor), Some(Collision::Top));
    assert!(is_grounded(&body, &vec![solid(floor)]));
}

#[test]
fn collision_sides() {
    let b = rect(0, 0, 100, 100);
    assert_eq!(collide(&rect(-55, 0, 20, 20), &b), Some(Collision::Left));
    assert_eq!(collide(&rect(55, 0, 20, 20), &b), Some(Collision::Right));
    assert_eq!(collide(&rect(0, -55, 20, 20), &b), Some(Collision::Bottom));
    assert_eq!(collide(&rect(0, 55, 20, 20), &b), Some(Collision::Top));
    assert_eq!(collide(&rect(0, 200, 20, 20), &b), None);
    assert_eq!(collide(&rect(0, 0, 20, 20), &b), None);
    // Both axes stick out: the shallower penetration wins.
    assert_eq!(collide(&rect(55, 58, 20, 20), &b), Some(Collision::Top));
    assert_eq!(collide(&rect(58, 55, 20, 20), &b), Some(Collision::Right));
    // Equal depths go to the horizontal side.
    assert_eq!(collide(&rect(55, 55, 20, 20), &b), Some(Collision::Right));
}

#[test]
fn later_colliders_do_not_erase_grounding() {
    let body = rect(0, 0, 120, 30);
    let floor = solid(rect(0, -20, 300, 10));
    let far = solid(rect(400, 400, 10, 10));
    assert!(is_grounded(&body, &vec![floor, far, far]));
    assert!(is_grounded(&body, &vec![far, floor]));
    assert!(!is_grounded(&body, &vec![far, far]));
    assert!(!is_grounded(&body, &vec![]));
    // Touching a wall from the side does not ground.
    assert!(!is_grounded(&body, &vec![solid(rect(65, 0, 10, 100))]));
}

#[test]
fn airborne_body_falls_by_gravity() {
    let p = physics_step(Point { x: 0, y: 0 }, Velocity { x: 0, y: 0 }, SECOND, 20, false, 380_000_000);
    assert_eq!(p, Ok(Point { x: 0, y: -20 * UNIT }));
}

#[test]
fn grounded_body_ignores_gravity() {
    let p = physics_step(Point { x: 0, y: 0 }, Velocity { x: 0, y: 0 }, SECOND, 20, true, 380_000_000);
    assert_eq!(p, Ok(Point { x: 0, y: 0 }));
    let p = physics_step(Point { x: 0, y: 0 }, Velocity { x: 0, y: 3 * UNIT }, SECOND, 20, true, 380_000_000);
    assert_eq!(p, Ok(Point { x: 0, y: 3 * UNIT }));
}

#[test]
fn horizontal_position_is_clamped() {
    let p = physics_step(Point { x: 379 * UNIT, y: 0 }, Velocity { x: 5 * UNIT, y: 0 }, 0, 20, true, 380_000_000);
    assert_eq!(p, Ok(Point { x: 380 * UNIT, y: 0 }));
    let p = physics_step(Point { x: -379 * UNIT, y: 0 }, Velocity { x: -5 * UNIT, y: 0 }, 0, 20, true, 380_000_000);
    assert_eq!(p, Ok(Point { x: -380 * UNIT, y: 0 }));
    let p = physics_step(Point { x: 100 * UNIT, y: 0 }, Velocity { x: 5 * UNIT, y: 0 }, 0, 20, true, 380_000_000);
    assert_eq!(p, Ok(Point { x: 105 * UNIT, y: 0 }));
}

#[test]
fn first_frame_of_the_arena() {
    let mut w = World::arena(&Config::default());
    assert_eq!(w.body.rect.center, Point { x: 0, y: -215 * UNIT });
    assert!(!w.body.grounded);
    assert_eq!(w.step(100_000, no_keys()), Ok(()));
    assert_eq!(w.body.rect.center, Point { x: 0, y: -217 * UNIT });
    assert_eq!(w.body.velocity, Velocity { x: 0, y: 0 });
    assert!(!w.body.grounded);
}

#[test]
fn arena_walls_and_defaults() {
    let c = Config::default();
    assert_eq!(c.max_speed, Speed { x: 500, y: 200 });
    assert_eq!(c.gravity, 20);
    assert_eq!(c.position_clamp, 380_000_000);
    let w = World::arena(&c);
    assert_eq!(w.body.rect.center.y, PLAYER_START_Y);
    assert_eq!(w.colliders.len(), 4);
    assert_eq!(w.colliders[0].rect, rect(-450, 0, 10, 610));
    assert_eq!(w.colliders[1].rect, rect(450, 0, 10, 610));
    assert_eq!(w.colliders[2].rect, rect(0, -300, 910, 10));
    assert_eq!(w.colliders[3].rect, rect(0, 300, 910, 10));
    assert_eq!(w.position_clamp, c.position_clamp);
}

#[test]
fn body_on_the_floor_stays_put() {
    let c = Config::default();
    let arena = World::arena(&c);
    let mut w = World::new(vec![body_at(0, -280 * UNIT)], arena.colliders, c.position_clamp).unwrap();
    assert_eq!(w.step(SECOND / 60, no_keys()), Ok(()));
    assert!(w.body.grounded);
    assert_eq!(w.body.rect.center, Point { x: 0, y: -280 * UNIT });
    // Jumping still moves the body up while grounded.
    assert_eq!(w.step(10_000, keys(false, false, true)), Ok(()));
    assert!(w.body.grounded);
    assert_eq!(w.body.rect.center, Point { x: 0, y: -278 * UNIT });
    // Next frame it is airborne again and gravity applies.
    assert_eq!(w.step(10_000, no_keys()), Ok(()));
    assert!(!w.body.grounded);
    assert_eq!(w.body.rect.center, Point { x: 0, y: -278 * UNIT - 200_000 });
}

#[test]
fn moving_right_for_a_second_hits_the_clamp() {
    let mut w = World::arena(&Config::default());
    assert_eq!(w.step(SECOND, keys(false, true, false)), Ok(()));
    assert_eq!(w.body.velocity, Velocity { x: 500 * UNIT, y: 0 });
    assert_eq!(w.body.rect.center, Point { x: 380 * UNIT, y: -235 * UNIT });
}

#[test]
fn invalid_timesteps_are_rejected() {
    let mut w = World::arena(&Config::default());
    let before = w.body;
    assert_eq!(w.step(-1, no_keys()), Err(SimError::InvalidTimestep));
    assert_eq!(w.step(MAX_FRAME_MICROS + 1, no_keys()), Err(SimError::InvalidTimestep));
    assert_eq!(w.body, before);
    let p = physics_step(Point { x: 0, y: 0 }, Velocity { x: 0, y: 0 }, -5, 20, false, 1);
    assert_eq!(p, Err(SimError::InvalidTimestep));
}

#[test]
fn world_needs_exactly_one_body() {
    let c = Config::default();
    assert_eq!(World::new(vec![], vec![], c.position_clamp).err(), Some(SimError::MissingEntity));
    let two = vec![body_at(0, 0), body_at(1, 1)];
    assert_eq!(World::new(two, vec![], c.position_clamp).err(), Some(SimError::MissingEntity));
    let w = World::new(vec![body_at(7, 9)], vec![], c.position_clamp).unwrap();
    assert_eq!(w.body, body_at(7, 9));
}

#[test]
fn coordinates_out_of_range_are_rejected() {
    let c = Config::default();
    let far = body_at(0, COORD_LIMIT + 1);
    assert_eq!(World::new(vec![far], vec![], c.position_clamp).err(), Some(SimError::OutOfRange));
    let mut w = World::new(vec![body_at(0, -COORD_LIMIT)], vec![], c.position_clamp).unwrap();
    assert_eq!(w.step(1, no_keys()), Err(SimError::OutOfRange));
    assert_eq!(w.body.rect.center.y, -COORD_LIMIT);
}
