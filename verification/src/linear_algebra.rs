use vstd::prelude::*;

verus! {

/// A four-component vector of copyable scalars. The renderer uses it with
/// `u8` components as an R,G,B,A color.
#[derive(Clone, Copy)]
pub struct Vec4<T>
where
    T: Copy,
{
    pub x: T,
    pub y: T,
    pub z: T,
    pub w: T,
}

impl<T> Vec4<T>
where
    T: Copy,
{
    /// Builds a vector from its four components.
    pub fn from(x: T, y: T, z: T, w: T) -> (r: Vec4<T>)
        ensures
            r.x == x,
            r.y == y,
            r.z == z,
            r.w == w,
    {
        Vec4 { x, y, z, w }
    }
}

/// A three-component vector of copyable scalars, used for positions and
/// directions in scene space.
#[derive(Clone, Copy)]
pub struct Vec3<T>
where
    T: Copy,
{
    pub x: T,
    pub y: T,
    pub z: T,
}

impl<T> Vec3<T>
where
    T: Copy,
{
    /// Builds a vector from its three components.
    pub fn from(x: T, y: T, z: T) -> (r: Vec3<T>)
        ensures
            r.x == x,
            r.y == y,
            r.z == z,
    {
        Vec3 { x, y, z }
    }
}

/// A two-component vector of copyable scalars, used for screen positions.
#[derive(Clone, Copy)]
pub struct Vec2<T>
where
    T: Copy,
{
    pub x: T,
    pub y: T,
}

impl<T> Vec2<T>
where
    T: Copy,
{
    /// Builds a vector from its two components.
    pub fn from(x: T, y: T) -> (r: Vec2<T>)
        ensures
            r.x == x,
            r.y == y,
    {
        Vec2 { x, y }
    }
}

} // verus!
