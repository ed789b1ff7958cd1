use vstd::prelude::*;
use crate::geometry::Aabb;
use crate::geometry::Vec2Fix;

verus! {

/// The kinds of static terrain a level is built from.
#[derive(Clone, Copy, Debug, PartialEq, Eq, Structural)]
pub enum TerrainType {
    Floor,
}

impl TerrainType {
    /// The center of this terrain piece, in micro-units: the floor sits
    /// 300 world units below the origin.
    pub fn position(&self) -> (p: Vec2Fix)
        ensures
            self is Floor ==> p == (Vec2Fix { x: 0, y: -300_000_000i64 }),
    {
        match self {
            TerrainType::Floor => Vec2Fix { x: 0, y: -300_000_000i64 },
        }
    }

    /// The full extent of this terrain piece, in micro-units: the floor
    /// is 900 world units wide plus its own 10-unit thickness, and 10
    /// units thick.
    pub fn size(&self) -> (s: Vec2Fix)
        ensures
            self is Floor ==> s == (Vec2Fix { x: 910_000_000, y: 10_000_000 }),
    {
        match self {
            TerrainType::Floor => Vec2Fix { x: 910_000_000, y: 10_000_000 },
        }
    }

    /// The collider box of this terrain piece: centered at its
    /// position, with half its size as half-extent.
    pub fn collider(&self) -> (b: Aabb)
        ensures
            b.center == self.position_spec(),
            b.half.x == self.size_spec().x / 2,
            b.half.y == self.size_spec().y / 2,
            b.wf(),
    {
        match self {
            TerrainType::Floor => Aabb {
                center: Vec2Fix { x: 0, y: -300_000_000 },
                half: Vec2Fix { x: 455_000_000, y: 5_000_000 },
            },
        }
    }

    pub open spec fn position_spec(self) -> Vec2Fix {
        match self {
            TerrainType::Floor => Vec2Fix { x: 0, y: -300_000_000i64 },
        }
    }

    pub open spec fn size_spec(self) -> Vec2Fix {
        match self {
            TerrainType::Floor => Vec2Fix { x: 910_000_000, y: 10_000_000 },
        }
    }
}

} // verus!
