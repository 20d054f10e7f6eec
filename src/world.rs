use vstd::prelude::*;
use crate::geometry::{collide, collision, Collision, Extent, Point, Rect};
use crate::motion::{
    direction_from_keys, direction_of, integrate_velocity, velocity_x, velocity_y, Keys, Speed,
    Velocity, MAX_FRAME_MICROS,
};

verus! {

/// Largest magnitude, in micro-units, of a body coordinate.
pub const COORD_LIMIT: i64 = 4_611_686_018_427_387_904;

/// Where the player starts, and its full width and height, in micro-units.
pub const PLAYER_START_Y: i64 = -215_000_000;
pub const PLAYER_WIDTH: u64 = 120_000_000;
pub const PLAYER_HEIGHT: u64 = 30_000_000;

/// What a static collider does to a body that touches it. Only `Solid` is
/// used so far.
#[derive(Clone, Copy, Debug, PartialEq, Eq, Structural)]
pub enum ColliderKind {
    Solid,
}

/// An immovable rectangle of the level.
#[derive(Clone, Copy, Debug, PartialEq, Eq, Structural)]
pub struct StaticCollider {
    pub rect: Rect,
    pub kind: ColliderKind,
}

/// The one player-controlled body.
#[derive(Clone, Copy, Debug, PartialEq, Eq, Structural)]
pub struct Body {
    pub rect: Rect,
    pub velocity: Velocity,
    /// Fall speed while airborne, in logical units per second.
    pub gravity: u16,
    pub grounded: bool,
    pub max_speed: Speed,
}

#[derive(Clone, Copy, Debug, PartialEq, Eq, Structural)]
pub enum SimError {
    /// Not exactly one dynamic body was given.
    MissingEntity,
    /// The elapsed time is negative or longer than `MAX_FRAME_MICROS`.
    InvalidTimestep,
    /// A body coordinate would leave `[-COORD_LIMIT, COORD_LIMIT]`.
    OutOfRange,
}

/// Startup settings. Lengths are in micro-units.
#[derive(Clone, Copy, Debug, PartialEq, Eq, Structural)]
pub struct Config {
    pub max_speed: Speed,
    pub gravity: u16,
    /// Full width and height of the walled arena, measured between wall centers.
    pub arena_width: u32,
    pub arena_height: u32,
    pub wall_thickness: u32,
    /// Horizontal positions are clamped into `[-position_clamp, position_clamp]`.
    pub position_clamp: u32,
}

impl Default for Config {
    /// Top speed (500, 200), gravity 20, a 900 by 600 arena with walls 10
    /// thick, horizontal clamp at 380.
    fn default() -> (r: Config)
        ensures
            r == (Config {
                max_speed: Speed { x: 500, y: 200 },
                gravity: 20,
                arena_width: 900_000_000,
                arena_height: 600_000_000,
                wall_thickness: 10_000_000,
                position_clamp: 380_000_000,
            }),
    {
        Config {
            max_speed: Speed { x: 500, y: 200 },
            gravity: 20,
            arena_width: 900_000_000,
            arena_height: 600_000_000,
            wall_thickness: 10_000_000,
            position_clamp: 380_000_000,
        }
    }
}

/// The simulation: exactly one dynamic body and a fixed set of colliders.
#[derive(Debug)]
pub struct World {
    pub body: Body,
    pub colliders: Vec<StaticCollider>,
    pub position_clamp: u32,
}

pub open spec fn in_range(v: int) -> bool {
    -COORD_LIMIT <= v <= COORD_LIMIT
}

pub open spec fn valid_timestep(dt: int) -> bool {
    0 <= dt <= MAX_FRAME_MICROS
}

impl Body {
    pub open spec fn wf(self) -> bool {
        in_range(self.rect.center.x as int) && in_range(self.rect.center.y as int)
    }
}

impl World {
    pub open spec fn wf(&self) -> bool {
        self.body.wf()
    }
}

/// The body rests on top of this collider.
pub open spec fn top_contact(body: Rect, c: StaticCollider) -> bool {
    c.kind == ColliderKind::Solid && collision(body, c.rect) == Some(Collision::Top)
}

/// Some collider of the set, whatever its place in the order, holds the body up.
pub open spec fn grounded_on(body: Rect, cs: Seq<StaticCollider>) -> bool {
    exists|i: int| 0 <= i < cs.len() && #[trigger] top_contact(body, cs[i])
}

/// Grounding depends only on which colliders are present, not on their order
/// or repetition: a later collider cannot undo an earlier top contact.
pub proof fn lemma_grounding_ignores_order(body: Rect, cs: Seq<StaticCollider>, ds: Seq<StaticCollider>)
    requires
        cs.to_set() == ds.to_set(),
    ensures
        grounded_on(body, cs) == grounded_on(body, ds),
{
    if grounded_on(body, cs) {
        let i = choose|i: int| 0 <= i < cs.len() && #[trigger] top_contact(body, cs[i]);
        assert(cs.to_set().contains(cs[i]));
        let j = choose|j: int| 0 <= j < ds.len() && ds[j] == cs[i];
        assert(top_contact(body, ds[j]));
    }
    if grounded_on(body, ds) {
        let j = choose|j: int| 0 <= j < ds.len() && #[trigger] top_contact(body, ds[j]);
        assert(ds.to_set().contains(ds[j]));
        let i = choose|i: int| 0 <= i < cs.len() && cs[i] == ds[j];
        assert(top_contact(body, cs[i]));
    }
}

/// How far gravity pulls the body down in `dt` microseconds.
pub open spec fn fall(dt: int, gravity: int, grounded: bool) -> int {
    if grounded {
        0
    } else {
        dt * gravity
    }
}

pub open spec fn clamp(v: int, bound: int) -> int {
    if v > bound {
        bound
    } else if v < -bound {
        -bound
    } else {
        v
    }
}

pub open spec fn next_x(x: int, vx: int, bound: int) -> int {
    clamp(x + vx, bound)
}

pub open spec fn next_y(y: int, vy: int, dt: int, gravity: int, grounded: bool) -> int {
    y - fall(dt, gravity, grounded) + vy
}

/// Whether any solid collider reports that the body rests on its top.
pub fn is_grounded(body: &Rect, colliders: &Vec<StaticCollider>) -> (r: bool)
    ensures
        r == grounded_on(*body, colliders@),
{
    let mut i: usize = 0;
    while i < colliders.len()
        invariant
            0 <= i <= colliders.len(),
            forall|j: int| 0 <= j < i ==> !#[trigger] top_contact(*body, colliders@[j]),
        decreases colliders.len() - i,
    {
        let c = colliders[i];
        let hit = match c.kind {
            ColliderKind::Solid => match collide(body, &c.rect) {
                Some(Collision::Top) => true,
                _ => false,
            },
        };
        if hit {
            assert(top_contact(*body, colliders@[i as int]));
            return true;
        }
        i = i + 1;
    }
    false
}

/// Moves a point by one frame: gravity unless grounded, then the velocity,
/// then the horizontal clamp.
pub fn physics_step(
    pos: Point,
    vel: Velocity,
    dt: i64,
    gravity: u16,
    grounded: bool,
    position_clamp: u32,
) -> (r: Result<Point, SimError>)
    ensures
        !valid_timestep(dt as int) ==> r == Err::<Point, SimError>(SimError::InvalidTimestep),
        valid_timestep(dt as int) && !in_range(
            next_y(pos.y as int, vel.y as int, dt as int, gravity as int, grounded),
        ) ==> r == Err::<Point, SimError>(SimError::OutOfRange),
        valid_timestep(dt as int) && in_range(
            next_y(pos.y as int, vel.y as int, dt as int, gravity as int, grounded),
        ) ==> r == Ok::<Point, SimError>(
            Point {
                x: next_x(pos.x as int, vel.x as int, position_clamp as int) as i64,
                y: next_y(pos.y as int, vel.y as int, dt as int, gravity as int, grounded) as i64,
            },
        ),
{
    if dt < 0 || dt > MAX_FRAME_MICROS {
        return Err(SimError::InvalidTimestep);
    }
    let mut y: i128 = pos.y as i128;
    if !grounded {
        proof {
            assert(0 <= dt * gravity <= MAX_FRAME_MICROS * 65535) by (nonlinear_arith)
                requires
                    0 <= dt <= MAX_FRAME_MICROS,
                    0 <= gravity <= 65535,
            ;
        }
        y = y - (dt as i128) * (gravity as i128);
    }
    y = y + vel.y as i128;
    if y < -(COORD_LIMIT as i128) || y > COORD_LIMIT as i128 {
        return Err(SimError::OutOfRange);
    }
    let bound: i128 = position_clamp as i128;
    let mut x: i128 = pos.x as i128 + vel.x as i128;
    if x > bound {
        x = bound;
    } else if x < -bound {
        x = -bound;
    }
    Ok(Point { x: x as i64, y: y as i64 })
}

pub open spec fn wall(x: int, y: int, w: int, h: int) -> StaticCollider {
    StaticCollider {
        rect: Rect { center: Point { x: x as i64, y: y as i64 }, size: Extent { w: w as u64, h: h as u64 } },
        kind: ColliderKind::Solid,
    }
}

/// Left, right, bottom and top walls, each centered on the arena's edge.
pub open spec fn arena_walls(config: Config) -> Seq<StaticCollider> {
    let hw = config.arena_width / 2;
    let hh = config.arena_height / 2;
    let t = config.wall_thickness as int;
    seq![
        wall(-hw, 0, t, config.arena_height + t),
        wall(hw as int, 0, t, config.arena_height + t),
        wall(0, -hh, config.arena_width + t, t),
        wall(0, hh as int, config.arena_width + t, t),
    ]
}

fn make_wall(x: i64, y: i64, w: u64, h: u64) -> (r: StaticCollider)
    ensures
        r == wall(x as int, y as int, w as int, h as int),
{
    StaticCollider {
        rect: Rect { center: Point { x, y }, size: Extent { w, h } },
        kind: ColliderKind::Solid,
    }
}

impl World {
    /// Builds a world from the dynamic bodies found at startup, of which
    /// there must be exactly one.
    pub fn new(bodies: Vec<Body>, colliders: Vec<StaticCollider>, position_clamp: u32) -> (r:
        Result<World, SimError>)
        ensures
            bodies@.len() != 1 ==> r == Err::<World, SimError>(SimError::MissingEntity),
            bodies@.len() == 1 && !bodies@[0].wf() ==> r == Err::<World, SimError>(
                SimError::OutOfRange,
            ),
            bodies@.len() == 1 && bodies@[0].wf() ==> r is Ok,
            r matches Ok(w) ==> {
                &&& w.wf()
                &&& w.body == bodies@[0]
                &&& w.colliders@ == colliders@
                &&& w.position_clamp == position_clamp
            },
    {
        if bodies.len() != 1 {
            return Err(SimError::MissingEntity);
        }
        let body = bodies[0];
        if body.rect.center.x < -COORD_LIMIT || body.rect.center.x > COORD_LIMIT
            || body.rect.center.y < -COORD_LIMIT || body.rect.center.y > COORD_LIMIT {
            return Err(SimError::OutOfRange);
        }
        Ok(World { body, colliders, position_clamp })
    }

    /// The starting scene: the player at rest above the floor of a walled arena.
    pub fn arena(config: &Config) -> (r: World)
        ensures
            r.wf(),
            r.body == (Body {
                rect: Rect {
                    center: Point { x: 0, y: PLAYER_START_Y },
                    size: Extent { w: PLAYER_WIDTH, h: PLAYER_HEIGHT },
                },
                velocity: Velocity { x: 0, y: 0 },
                gravity: config.gravity,
                grounded: false,
                max_speed: config.max_speed,
            }),
            r.colliders@ == arena_walls(*config),
            r.position_clamp == config.position_clamp,
    {
        let body = Body {
            rect: Rect {
                center: Point { x: 0, y: PLAYER_START_Y },
                size: Extent { w: PLAYER_WIDTH, h: PLAYER_HEIGHT },
            },
            velocity: Velocity { x: 0, y: 0 },
            gravity: config.gravity,
            grounded: false,
            max_speed: config.max_speed,
        };
        let hw = (config.arena_width / 2) as i64;
        let hh = (config.arena_height / 2) as i64;
        let t = config.wall_thickness as u64;
        let w = config.arena_width as u64;
        let h = config.arena_height as u64;
        let mut colliders: Vec<StaticCollider> = Vec::new();
        colliders.push(make_wall(-hw, 0, t, h + t));
        colliders.push(make_wall(hw, 0, t, h + t));
        colliders.push(make_wall(0, -hh, w + t, t));
        colliders.push(make_wall(0, hh, w + t, t));
        assert(colliders@ =~= arena_walls(*config));
        World { body, colliders, position_clamp: config.position_clamp }
    }

    /// Runs one frame: velocity from the held keys, the grounded flag from the
    /// body's position before it moves, then the move itself. On an error the
    /// world is left as it was.
    pub fn step(&mut self, dt: i64, keys: Keys) -> (r: Result<(), SimError>)
        requires
            old(self).wf(),
        ensures
            final(self).wf(),
            !valid_timestep(dt as int) ==> r == Err::<(), SimError>(SimError::InvalidTimestep),
            r is Err ==> *final(self) == *old(self),
            valid_timestep(dt as int) ==> ({
                let b = old(self).body;
                let dir = direction_of(keys);
                let vx = velocity_x(dt as int, dir, b.max_speed);
                let vy = velocity_y(dt as int, dir, b.max_speed);
                let g = grounded_on(b.rect, old(self).colliders@);
                let y = next_y(b.rect.center.y as int, vy, dt as int, b.gravity as int, g);
                &&& !in_range(y) ==> r == Err::<(), SimError>(SimError::OutOfRange)
                &&& in_range(y) ==> r is Ok
                &&& r is Ok ==> final(self).body == (Body {
                    rect: Rect {
                        center: Point {
                            x: next_x(b.rect.center.x as int, vx, old(self).position_clamp as int) as i64,
                            y: y as i64,
                        },
                        size: b.rect.size,
                    },
                    velocity: Velocity { x: vx as i64, y: vy as i64 },
                    grounded: g,
                    ..b
                })
                &&& final(self).colliders@ == old(self).colliders@
                &&& final(self).position_clamp == old(self).position_clamp
            }),
    {
        if dt < 0 || dt > MAX_FRAME_MICROS {
            return Err(SimError::InvalidTimestep);
        }
        let dir = direction_from_keys(keys);
        let vel = integrate_velocity(dt, dir, self.body.max_speed);
        let grounded = is_grounded(&self.body.rect, &self.colliders);
        match physics_step(self.body.rect.center, vel, dt, self.body.gravity, grounded, self.position_clamp) {
            Ok(p) => {
                self.body.velocity = vel;
                self.body.grounded = grounded;
                self.body.rect.center = p;
                Ok(())
            },
            Err(e) => Err(e),
        }
    }
}

} // verus!
