use vstd::prelude::*;
use crate::util::{MAX_ATTR, MAX_COORD};

verus! {

/// A 2D point or vector. Components are fixed-point: `x` stands for
/// the real number `x / SCALE`.
#[derive(Clone, Copy, Debug, PartialEq, Eq)]
pub struct Vector2 {
    pub x: i128,
    pub y: i128,
}

/// A 3D point or direction, fixed-point like `Vector2`.
#[derive(Clone, Copy, Debug, PartialEq, Eq)]
pub struct Vector3 {
    pub x: i128,
    pub y: i128,
    pub z: i128,
}

/// An RGBA color or other 4-component value, fixed-point like `Vector2`.
#[derive(Clone, Copy, Debug, PartialEq, Eq)]
pub struct Vector4 {
    pub x: i128,
    pub y: i128,
    pub z: i128,
    pub w: i128,
}

/// An integer pixel coordinate (column `x`, row `y`).
#[derive(Clone, Copy, Debug, PartialEq, Eq)]
pub struct Vector2i {
    pub x: i64,
    pub y: i64,
}

/// Per-vertex bag of optional attributes. Each attribute is
/// independently present or absent; interpolation produces an
/// attribute only when all three vertices of a primitive supply it.
#[derive(Clone, Copy, Debug, PartialEq, Eq)]
pub struct VertexMetadata {
    pub world_pos: Option<Vector3>,
    pub texture_coord: Option<Vector2>,
    pub normal: Option<Vector3>,
    pub color: Option<Vector4>,
}

impl VertexMetadata {
    /// The metadata record with every attribute absent.
    pub open spec fn spec_empty() -> VertexMetadata {
        VertexMetadata { world_pos: None, texture_coord: None, normal: None, color: None }
    }

    pub fn empty() -> (r: Self)
        ensures
            r == Self::spec_empty(),
    {
        VertexMetadata { world_pos: None, texture_coord: None, normal: None, color: None }
    }
}

/// Both components of `v` have magnitude at most `b`.
pub open spec fn vec2_bounded(v: Vector2, b: int) -> bool {
    -b <= v.x <= b && -b <= v.y <= b
}

/// All components of `v` have magnitude at most `b`.
pub open spec fn vec3_bounded(v: Vector3, b: int) -> bool {
    -b <= v.x <= b && -b <= v.y <= b && -b <= v.z <= b
}

/// All components of `v` have magnitude at most `b`.
pub open spec fn vec4_bounded(v: Vector4, b: int) -> bool {
    -b <= v.x <= b && -b <= v.y <= b && -b <= v.z <= b && -b <= v.w <= b
}

/// Both components of the pixel coordinate `p` have magnitude at most `b`.
pub open spec fn pixel_bounded(p: Vector2i, b: int) -> bool {
    -b <= p.x <= b && -b <= p.y <= b
}

/// Every attribute component present in `m` has magnitude at most `b`.
pub open spec fn meta_bounded(m: VertexMetadata, b: int) -> bool {
    &&& match m.world_pos {
        Some(v) => vec3_bounded(v, b),
        None => true,
    }
    &&& match m.texture_coord {
        Some(v) => vec2_bounded(v, b),
        None => true,
    }
    &&& match m.normal {
        Some(v) => vec3_bounded(v, b),
        None => true,
    }
    &&& match m.color {
        Some(v) => vec4_bounded(v, b),
        None => true,
    }
}

/// A primitive in the plane: exposes its vertex positions as an
/// ordered sequence whose length matches the shape's arity.
pub trait Primitive2 {
    fn vertices(&self) -> Vec<Vector2>;
}

/// A primitive in space: exposes its vertex positions as an ordered
/// sequence whose length matches the shape's arity.
pub trait Primitive3 {
    fn vertices(&self) -> Vec<Vector3>;
}

/// A 2D triangle: three vertices, each with its attribute record.
#[derive(Clone, Copy, Debug, PartialEq, Eq)]
pub struct Triangle2 {
    pub v: [Vector2; 3],
    pub meta: [VertexMetadata; 3],
}

impl Triangle2 {
    /// The triangle's coordinates and attribute values are within the
    /// ranges the pipeline's exact arithmetic accepts.
    pub open spec fn wf(self) -> bool {
        &&& forall|i: int| 0 <= i < 3 ==> vec2_bounded(#[trigger] self.v[i], MAX_COORD as int)
        &&& forall|i: int| 0 <= i < 3 ==> meta_bounded(#[trigger] self.meta[i], MAX_ATTR as int)
    }
}

/// A 3D triangle: three vertices, each with its attribute record.
#[derive(Clone, Copy, Debug, PartialEq, Eq)]
pub struct Triangle3 {
    pub v: [Vector3; 3],
    pub meta: [VertexMetadata; 3],
}

/// A 2D line segment.
#[derive(Clone, Copy, Debug, PartialEq, Eq)]
pub struct Line2 {
    pub v: [Vector2; 2],
}

/// A 3D line segment.
#[derive(Clone, Copy, Debug, PartialEq, Eq)]
pub struct Line3 {
    pub v: [Vector3; 2],
}

/// A 2D polygon with one attribute record per vertex.
#[derive(Clone, Debug, PartialEq, Eq)]
pub struct Polygon2 {
    pub v: Vec<Vector2>,
    pub meta: Vec<VertexMetadata>,
}

/// A 3D polygon with one attribute record per vertex.
#[derive(Clone, Debug, PartialEq, Eq)]
pub struct Polygon3 {
    pub v: Vec<Vector3>,
    pub meta: Vec<VertexMetadata>,
}

impl Primitive2 for Triangle2 {
    fn vertices(&self) -> (r: Vec<Vector2>)
        ensures
            r@ =~= seq![self.v[0], self.v[1], self.v[2]],
    {
        let mut r: Vec<Vector2> = Vec::new();
        r.push(self.v[0]);
        r.push(self.v[1]);
        r.push(self.v[2]);
        r
    }
}

impl Primitive3 for Triangle3 {
    fn vertices(&self) -> (r: Vec<Vector3>)
        ensures
            r@ =~= seq![self.v[0], self.v[1], self.v[2]],
    {
        let mut r: Vec<Vector3> = Vec::new();
        r.push(self.v[0]);
        r.push(self.v[1]);
        r.push(self.v[2]);
        r
    }
}

impl Primitive2 for Line2 {
    fn vertices(&self) -> (r: Vec<Vector2>)
        ensures
            r@ =~= seq![self.v[0], self.v[1]],
    {
        let mut r: Vec<Vector2> = Vec::new();
        r.push(self.v[0]);
        r.push(self.v[1]);
        r
    }
}

impl Primitive3 for Line3 {
    fn vertices(&self) -> (r: Vec<Vector3>)
        ensures
            r@ =~= seq![self.v[0], self.v[1]],
    {
        let mut r: Vec<Vector3> = Vec::new();
        r.push(self.v[0]);
        r.push(self.v[1]);
        r
    }
}

impl Primitive2 for Polygon2 {
    fn vertices(&self) -> (r: Vec<Vector2>)
        ensures
            r@ =~= self.v@,
    {
        let mut r: Vec<Vector2> = Vec::new();
        let mut i: usize = 0;
        while i < self.v.len()
            invariant
                0 <= i <= self.v.len(),
                r@ =~= self.v@.take(i as int),
            decreases self.v.len() - i,
        {
            r.push(self.v[i]);
            i = i + 1;
        }
        r
    }
}

impl Primitive3 for Polygon3 {
    fn vertices(&self) -> (r: Vec<Vector3>)
        ensures
            r@ =~= self.v@,
    {
        let mut r: Vec<Vector3> = Vec::new();
        let mut i: usize = 0;
        while i < self.v.len()
            invariant
                0 <= i <= self.v.len(),
                r@ =~= self.v@.take(i as int),
            decreases self.v.len() - i,
        {
            r.push(self.v[i]);
            i = i + 1;
        }
        r
    }
}

} // verus!
