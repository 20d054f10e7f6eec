use vstd::prelude::*;

verus! {

/// Which direction keys are held this frame. There is no downward input.
#[derive(Clone, Copy, Debug, PartialEq, Eq, Structural)]
pub struct Keys {
    pub left: bool,
    pub right: bool,
    pub up: bool,
}

/// A direction of intent: `x` in {-1, 0, 1}, `y` in {0, 1}.
#[derive(Clone, Copy, Debug, PartialEq, Eq, Structural)]
pub struct Direction {
    pub x: i8,
    pub y: i8,
}

/// Top speed along each axis, in logical units per second (which is the
/// same as micro-units per microsecond).
#[derive(Clone, Copy, Debug, PartialEq, Eq, Structural)]
pub struct Speed {
    pub x: u16,
    pub y: u16,
}

/// Displacement applied in one frame, in micro-units.
#[derive(Clone, Copy, Debug, PartialEq, Eq, Structural)]
pub struct Velocity {
    pub x: i64,
    pub y: i64,
}

/// The longest frame, in microseconds, that the simulation accepts.
pub const MAX_FRAME_MICROS: i64 = 4_294_967_295;

pub open spec fn key_value(pressed: bool) -> int {
    if pressed {
        1
    } else {
        0
    }
}

/// Left subtracts one, right adds one, up adds one.
pub open spec fn direction_of(keys: Keys) -> Direction {
    Direction {
        x: (key_value(keys.right) - key_value(keys.left)) as i8,
        y: key_value(keys.up) as i8,
    }
}

/// Elapsed time times direction times top speed, axis by axis.
pub open spec fn velocity_x(dt: int, dir: Direction, max_speed: Speed) -> int {
    dt * dir.x * max_speed.x
}

pub open spec fn velocity_y(dt: int, dir: Direction, max_speed: Speed) -> int {
    dt * dir.y * max_speed.y
}

impl Direction {
    pub open spec fn wf(self) -> bool {
        -1 <= self.x <= 1 && 0 <= self.y <= 1
    }
}

/// The direction that the held keys ask for; opposite keys cancel.
pub fn direction_from_keys(keys: Keys) -> (r: Direction)
    ensures
        r == direction_of(keys),
        r.wf(),
        keys.left && keys.right ==> r.x == 0,
{
    let mut x: i8 = 0;
    if keys.left {
        x = x - 1;
    }
    if keys.right {
        x = x + 1;
    }
    let y: i8 = if keys.up {
        1
    } else {
        0
    };
    Direction { x, y }
}

/// The velocity for a frame of `dt` microseconds.
pub fn integrate_velocity(dt: i64, dir: Direction, max_speed: Speed) -> (r: Velocity)
    requires
        0 <= dt <= MAX_FRAME_MICROS,
        dir.wf(),
    ensures
        r.x == velocity_x(dt as int, dir, max_speed),
        r.y == velocity_y(dt as int, dir, max_speed),
{
    proof {
        assert(-dt <= dt * dir.x <= dt) by (nonlinear_arith)
            requires
                0 <= dt,
                -1 <= dir.x <= 1,
        ;
        assert(0 <= dt * dir.y <= dt) by (nonlinear_arith)
            requires
                0 <= dt,
                0 <= dir.y <= 1,
        ;
        assert(-(dt * 65535) <= dt * dir.x * max_speed.x <= dt * 65535) by (nonlinear_arith)
            requires
                0 <= dt <= MAX_FRAME_MICROS,
                -1 <= dir.x <= 1,
                0 <= max_speed.x <= 65535,
        ;
        assert(0 <= dt * dir.y * max_speed.y <= dt * 65535) by (nonlinear_arith)
            requires
                0 <= dt <= MAX_FRAME_MICROS,
                0 <= dir.y <= 1,
                0 <= max_speed.y <= 65535,
        ;
    }
    let x = dt * (dir.x as i64) * (max_speed.x as i64);
    let y = dt * (dir.y as i64) * (max_speed.y as i64);
    Velocity { x, y }
}

/// With both horizontal keys held the horizontal velocity is zero, whatever
/// the elapsed time and top speed.
pub proof fn lemma_opposite_keys_cancel(keys: Keys, dt: int, max_speed: Speed)
    requires
        keys.left && keys.right,
    ensures
        velocity_x(dt, direction_of(keys), max_speed) == 0,
{
    let d = direction_of(keys);
    assert(d.x == 0);
    assert(dt * d.x * max_speed.x == 0) by (nonlinear_arith)
        requires
            d.x == 0,
    ;
}

/// Velocity grows linearly with elapsed time: for the same direction,
/// velocity(t1) / t1 == velocity(t2) / t2, written without division.
pub proof fn lemma_velocity_linear_in_time(t1: int, t2: int, dir: Direction, max_speed: Speed)
    ensures
        velocity_x(t1, dir, max_speed) * t2 == velocity_x(t2, dir, max_speed) * t1,
        velocity_y(t1, dir, max_speed) * t2 == velocity_y(t2, dir, max_speed) * t1,
{
    assert(t1 * dir.x * max_speed.x * t2 == t2 * dir.x * max_speed.x * t1) by (nonlinear_arith);
    assert(t1 * dir.y * max_speed.y * t2 == t2 * dir.y * max_speed.y * t1) by (nonlinear_arith);
}

} // verus!
