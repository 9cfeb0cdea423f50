use vstd::prelude::*;

use crate::geometry::{Aabb, Point};

verus! {

/// Lengths are held in thousandths of an arena unit, times in milliseconds and angles
/// in milliradians. A velocity is then in thousandths of a unit per millisecond,
/// which is the same number as arena units per second.
pub const UNIT: i64 = 1000;

/// x coordinate of the left wall.
pub const LEFT_WALL: i64 = -900 * UNIT;

/// x coordinate of the right wall.
pub const RIGHT_WALL: i64 = 900 * UNIT;

/// y coordinate of the bottom wall.
pub const BOTTOM_WALL: i64 = -500 * UNIT;

/// y coordinate of the top wall.
pub const TOP_WALL: i64 = 500 * UNIT;

pub const WALL_THICKNESS: i64 = 10 * UNIT;

/// Radius of the actor's bounding circle.
pub const ACTOR_RADIUS: i64 = 20 * UNIT;

/// Half of a mirror's width and height.
pub const MIRROR_HALF_X: i64 = 100 * UNIT;

pub const MIRROR_HALF_Y: i64 = 20 * UNIT;

/// Mirror centers are drawn from `[-MIRROR_SPAN_X, MIRROR_SPAN_X)` and
/// `[-MIRROR_SPAN_Y, MIRROR_SPAN_Y)`, strictly inside the arena.
pub const MIRROR_SPAN_X: i64 = 800 * UNIT;

pub const MIRROR_SPAN_Y: i64 = 300 * UNIT;

/// The first whole milliradian at or past a full turn: rotations lie in `[0, FULL_TURN)`.
pub const FULL_TURN: i64 = 6284;

/// Rotation speed of the actor, in milliradians per millisecond.
pub const ANGULAR_SPEED: i64 = 5;

/// Change of velocity for each held direction in one tick.
pub const INPUT_DELTA: i64 = 50;

/// Number of walls around the arena.
pub const WALL_COUNT: usize = 4;

/// Which side of the arena a wall stands on.
#[derive(Clone, Copy, Debug, PartialEq, Eq, Structural)]
pub enum WallLocation {
    Left,
    Right,
    Bottom,
    Top,
}

/// Kind of an obstacle: walls stay for good, mirrors come and go in pairs.
#[derive(Clone, Copy, Debug, PartialEq, Eq, Structural)]
pub enum ColliderKind {
    Wall,
    Mirror,
}

/// A rectangular obstacle. Its rotation is drawn only; collisions use the unrotated box.
#[derive(Clone, Copy, Debug, PartialEq, Eq, Structural)]
pub struct Collider {
    pub center: Point,
    pub half_extent: Point,
    pub rotation: i64,
    pub kind: ColliderKind,
}

/// Where a new mirror goes: its center and its rotation.
#[derive(Clone, Copy, Debug, PartialEq, Eq, Structural)]
pub struct MirrorPlacement {
    pub x: i64,
    pub y: i64,
    pub rotation: i64,
}

/// The placements of the two mirrors that spawn together.
#[derive(Clone, Copy, Debug, PartialEq, Eq, Structural)]
pub struct MirrorPair {
    pub first: MirrorPlacement,
    pub second: MirrorPlacement,
}

pub open spec fn wall_position(loc: WallLocation) -> Point {
    match loc {
        WallLocation::Left => Point { x: LEFT_WALL, y: 0 },
        WallLocation::Right => Point { x: RIGHT_WALL, y: 0 },
        WallLocation::Bottom => Point { x: 0, y: BOTTOM_WALL },
        WallLocation::Top => Point { x: 0, y: TOP_WALL },
    }
}

/// Full size of a wall: the arena's extent on its own axis plus one thickness, and one
/// thickness across.
pub open spec fn wall_size(loc: WallLocation) -> Point {
    match loc {
        WallLocation::Left | WallLocation::Right => Point {
            x: WALL_THICKNESS,
            y: (TOP_WALL - BOTTOM_WALL + WALL_THICKNESS) as i64,
        },
        WallLocation::Bottom | WallLocation::Top => Point {
            x: (RIGHT_WALL - LEFT_WALL + WALL_THICKNESS) as i64,
            y: WALL_THICKNESS,
        },
    }
}

pub open spec fn wall_collider_spec(loc: WallLocation) -> Collider {
    Collider {
        center: wall_position(loc),
        half_extent: Point { x: (wall_size(loc).x / 2) as i64, y: (wall_size(loc).y / 2) as i64 },
        rotation: 0,
        kind: ColliderKind::Wall,
    }
}

/// The wall at each index of the registry, in the order they are created.
pub open spec fn wall_at(i: int) -> WallLocation {
    if i == 0 {
        WallLocation::Left
    } else if i == 1 {
        WallLocation::Right
    } else if i == 2 {
        WallLocation::Bottom
    } else {
        WallLocation::Top
    }
}

pub open spec fn valid_placement(p: MirrorPlacement) -> bool {
    &&& -MIRROR_SPAN_X <= p.x < MIRROR_SPAN_X
    &&& -MIRROR_SPAN_Y <= p.y < MIRROR_SPAN_Y
    &&& 0 <= p.rotation < FULL_TURN
}

pub open spec fn valid_pair(pair: MirrorPair) -> bool {
    valid_placement(pair.first) && valid_placement(pair.second)
}

pub open spec fn mirror_collider_spec(p: MirrorPlacement) -> Collider {
    Collider {
        center: Point { x: p.x, y: p.y },
        half_extent: Point { x: MIRROR_HALF_X, y: MIRROR_HALF_Y },
        rotation: p.rotation,
        kind: ColliderKind::Mirror,
    }
}

/// A mirror as the registry may hold it: one that some valid placement produces.
pub open spec fn valid_mirror(c: Collider) -> bool {
    &&& c.kind == ColliderKind::Mirror
    &&& c.half_extent == Point { x: MIRROR_HALF_X, y: MIRROR_HALF_Y }
    &&& valid_placement(MirrorPlacement { x: c.center.x, y: c.center.y, rotation: c.rotation })
}

impl WallLocation {
    pub fn position(&self) -> (r: Point)
        ensures
            r == wall_position(*self),
    {
        match self {
            WallLocation::Left => Point { x: LEFT_WALL, y: 0 },
            WallLocation::Right => Point { x: RIGHT_WALL, y: 0 },
            WallLocation::Bottom => Point { x: 0, y: BOTTOM_WALL },
            WallLocation::Top => Point { x: 0, y: TOP_WALL },
        }
    }

    pub fn size(&self) -> (r: Point)
        ensures
            r == wall_size(*self),
            r.x > 0 && r.y > 0,
    {
        let arena_height = TOP_WALL - BOTTOM_WALL;
        let arena_width = RIGHT_WALL - LEFT_WALL;
        // The wall geometry only makes sense for an arena of positive extent.
        assert(arena_height > 0);
        assert(arena_width > 0);
        match self {
            WallLocation::Left | WallLocation::Right => Point {
                x: WALL_THICKNESS,
                y: arena_height + WALL_THICKNESS,
            },
            WallLocation::Bottom | WallLocation::Top => Point {
                x: arena_width + WALL_THICKNESS,
                y: WALL_THICKNESS,
            },
        }
    }

    /// The obstacle for this wall.
    pub fn collider(&self) -> (r: Collider)
        ensures
            r == wall_collider_spec(*self),
    {
        let size = self.size();
        Collider {
            center: self.position(),
            half_extent: Point { x: size.x / 2, y: size.y / 2 },
            rotation: 0,
            kind: ColliderKind::Wall,
        }
    }
}

impl Collider {
    /// The box that collisions are tested against.
    pub open spec fn aabb(self) -> Aabb {
        Aabb { center: self.center, half_extent: self.half_extent }
    }

    pub fn bounding_box(&self) -> (r: Aabb)
        ensures
            r == self.aabb(),
    {
        Aabb { center: self.center, half_extent: self.half_extent }
    }
}

impl MirrorPlacement {
    /// The mirror obstacle placed here.
    pub fn collider(&self) -> (r: Collider)
        ensures
            r == mirror_collider_spec(*self),
    {
        Collider {
            center: Point { x: self.x, y: self.y },
            half_extent: Point { x: MIRROR_HALF_X, y: MIRROR_HALF_Y },
            rotation: self.rotation,
            kind: ColliderKind::Mirror,
        }
    }
}

} // verus!
