use vstd::prelude::*;

verus! {

/// A two-dimensional quantity over the scalar type `R`.
#[derive(Clone, Copy, Debug, PartialEq)]
pub struct Vec2<R> {
    pub x: R,
    pub y: R,
}

impl<R> Vec2<R> {
    pub fn new(x: R, y: R) -> (r: Self)
        ensures
            r.x == x,
            r.y == y,
    {
        Vec2 { x, y }
    }
}

/// A disc of mass taking part in gravity and collisions.
#[derive(Clone, Debug, PartialEq)]
pub struct Body<R> {
    pub id: u32,
    pub mass: R,
    pub position: Vec2<R>,
    pub velocity: Vec2<R>,
    pub radius: R,
    pub color: String,
}

/// A partial update of one body: each present field replaces the body's own,
/// each absent one leaves it as it was.
#[derive(Clone, Debug, PartialEq)]
pub struct BodyPatch<R> {
    pub mass: Option<R>,
    pub position_x: Option<R>,
    pub position_y: Option<R>,
    pub velocity_x: Option<R>,
    pub velocity_y: Option<R>,
    pub radius: Option<R>,
    pub color: Option<String>,
}

/// The kinematic outcome of one integration step for one body.
#[derive(Clone, Copy, Debug, PartialEq)]
pub struct Motion<R> {
    pub position: Vec2<R>,
    pub velocity: Vec2<R>,
}

/// The value of an optional override: the new one where present, else the current one.
pub open spec fn overridden<T>(current: T, new: Option<T>) -> T {
    match new {
        Some(v) => v,
        None => current,
    }
}

/// `b` after the present fields of `p` have been written into it.
pub open spec fn patched<R>(b: Body<R>, p: BodyPatch<R>) -> Body<R> {
    Body {
        id: b.id,
        mass: overridden(b.mass, p.mass),
        position: Vec2 {
            x: overridden(b.position.x, p.position_x),
            y: overridden(b.position.y, p.position_y),
        },
        velocity: Vec2 {
            x: overridden(b.velocity.x, p.velocity_x),
            y: overridden(b.velocity.y, p.velocity_y),
        },
        radius: overridden(b.radius, p.radius),
        color: overridden(b.color, p.color),
    }
}

/// `b` moved to the position and velocity of `m`; identity, mass, radius and
/// color are kept.
pub open spec fn moved<R>(b: Body<R>, m: Motion<R>) -> Body<R> {
    Body { position: m.position, velocity: m.velocity, ..b }
}

/// Writes the present fields of `patch` into `body`.
pub fn apply_patch<R>(body: Body<R>, patch: BodyPatch<R>) -> (r: Body<R>)
    ensures
        r == patched(body, patch),
{
    let mut b = body;
    if let Some(m) = patch.mass {
        b.mass = m;
    }
    if let Some(px) = patch.position_x {
        b.position.x = px;
    }
    if let Some(py) = patch.position_y {
        b.position.y = py;
    }
    if let Some(vx) = patch.velocity_x {
        b.velocity.x = vx;
    }
    if let Some(vy) = patch.velocity_y {
        b.velocity.y = vy;
    }
    if let Some(r) = patch.radius {
        b.radius = r;
    }
    if let Some(c) = patch.color {
        b.color = c;
    }
    b
}

} // verus!
