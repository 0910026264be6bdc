//! The physical body shared by ships and torpedoes, and its motion.
use crate::arena::{
    clamp_i64, clamped_add, in_arena, is_floor_sqrt, isqrt, scale, scaled, wrap, wrap_spec, UNIT,
};
use vstd::prelude::*;

verus! {

/// One of the two ships.
#[derive(Clone, Copy, Debug, PartialEq, Eq, Structural)]
pub enum PlayerId {
    One,
    Two,
}

/// A unit direction in fixed point: `(cos θ, sin θ)` scaled by `UNIT`.
#[derive(Clone, Copy, Debug, PartialEq, Eq, Structural)]
pub struct Heading {
    pub x: i64,
    pub y: i64,
}

/// A simulated body: position, facing and cartesian velocity.
///
/// Position is in micro-units, orientation in micro-radians (unbounded), and velocity in
/// micro-units per second.
#[derive(Clone, Copy, Debug, PartialEq, Eq, Structural)]
pub struct Vehicle {
    pub x: i64,
    pub y: i64,
    pub orientation: i64,
    pub vx: i64,
    pub vy: i64,
}

impl Vehicle {
    /// The body lies inside the arena.
    pub open spec fn in_bounds(self) -> bool {
        in_arena(self.x as int) && in_arena(self.y as int)
    }

    /// Where the body would be after `dt` microseconds, before any wrap.
    pub open spec fn reach_x(self, dt: int) -> int {
        self.x + scaled(self.vx as int, dt)
    }

    pub open spec fn reach_y(self, dt: int) -> int {
        self.y + scaled(self.vy as int, dt)
    }

    /// The body after `dt` microseconds of motion on the torus.
    pub open spec fn integrated(self, dt: int) -> Vehicle {
        Vehicle {
            x: wrap_spec(self.reach_x(dt)) as i64,
            y: wrap_spec(self.reach_y(dt)) as i64,
            ..self
        }
    }

    /// The body after `dt` microseconds of straight flight, if it is still in the arena.
    pub open spec fn coasted(self, dt: int) -> Option<Vehicle> {
        if in_arena(self.reach_x(dt)) && in_arena(self.reach_y(dt)) {
            Some(Vehicle { x: self.reach_x(dt) as i64, y: self.reach_y(dt) as i64, ..self })
        } else {
            None
        }
    }

    /// The body after an impulse of `magnitude` along `heading` is added to its velocity.
    pub open spec fn pushed(self, heading: Heading, magnitude: int) -> Vehicle {
        Vehicle {
            vx: clamp_i64(self.vx + scaled(heading.x as int, magnitude)) as i64,
            vy: clamp_i64(self.vy + scaled(heading.y as int, magnitude)) as i64,
            ..self
        }
    }

    /// The body turned by `delta` micro-radians.
    pub open spec fn turned(self, delta: int) -> Vehicle {
        Vehicle { orientation: clamp_i64(self.orientation + delta) as i64, ..self }
    }

    /// Advances the position by `dt` microseconds and wraps it onto the torus.
    pub fn integrate(&mut self, dt: u64)
        ensures
            *final(self) == old(self).integrated(dt as int),
            final(self).in_bounds(),
    {
        let dx = scale(self.vx, dt);
        let dy = scale(self.vy, dt);
        self.x = wrap(self.x as i128 + dx);
        self.y = wrap(self.y as i128 + dy);
    }

    /// Moves the body in a straight line for `dt` microseconds without wrapping; `None`
    /// when that takes it out of the arena.
    pub fn coast(&self, dt: u64) -> (r: Option<Vehicle>)
        ensures
            r == self.coasted(dt as int),
    {
        let nx = self.x as i128 + scale(self.vx, dt);
        let ny = self.y as i128 + scale(self.vy, dt);
        if -(UNIT as i128) <= nx && nx < UNIT as i128 && -(UNIT as i128) <= ny && ny
            < UNIT as i128 {
            Some(Vehicle { x: nx as i64, y: ny as i64, ..*self })
        } else {
            None
        }
    }

    /// Adds an impulse of `magnitude` along `heading` to the velocity; each component
    /// saturates at the bounds of `i64`.
    pub fn apply_impulse(&mut self, heading: Heading, magnitude: u64)
        ensures
            *final(self) == old(self).pushed(heading, magnitude as int),
    {
        let ix = scale(heading.x, magnitude);
        let iy = scale(heading.y, magnitude);
        self.vx = clamped_add(self.vx, ix);
        self.vy = clamped_add(self.vy, iy);
    }

    /// Turns the body by `delta` micro-radians, saturating at the bounds of `i64`.
    pub fn rotate(&mut self, delta: i64)
        ensures
            *final(self) == old(self).turned(delta as int),
    {
        self.orientation = clamped_add(self.orientation, delta as i128);
    }

    /// The magnitude of the velocity, `sqrt(vx² + vy²)` rounded down: the scalar of its
    /// polar form.
    pub fn speed(&self) -> (r: u64)
        ensures
            is_floor_sqrt(r as int, self.vx * self.vx + self.vy * self.vy),
    {
        let ax: u128 = if self.vx < 0 {
            (-(self.vx as i128)) as u128
        } else {
            self.vx as u128
        };
        let ay: u128 = if self.vy < 0 {
            (-(self.vy as i128)) as u128
        } else {
            self.vy as u128
        };
        assert(ax * ax <= 0x4000_0000_0000_0000_0000_0000_0000_0000) by (nonlinear_arith)
            requires
                ax <= 0x8000_0000_0000_0000,
        ;
        assert(ay * ay <= 0x4000_0000_0000_0000_0000_0000_0000_0000) by (nonlinear_arith)
            requires
                ay <= 0x8000_0000_0000_0000,
        ;
        assert(ax * ax == self.vx * self.vx && ay * ay == self.vy * self.vy) by (nonlinear_arith)
            requires
                ax == self.vx || ax == -self.vx,
                ay == self.vy || ay == -self.vy,
        ;
        isqrt(ax * ax + ay * ay)
    }
}

} // verus!
