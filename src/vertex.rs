//! Vertex types yielded by the mesh adaptors.
//!
//! A vertex is a bare point, or a point wrapped with one or more attributes. Each wrapper keeps
//! the inner vertex in its `vertex` field.

use vstd::prelude::*;

verus! {

/// A vertex with a specified color.
#[derive(Clone, Copy, Debug, PartialEq)]
pub struct WithColor<V, C> {
    pub vertex: V,
    pub color: C,
}

/// A vertex with some specified texture coordinates.
#[derive(Clone, Copy, Debug, PartialEq)]
pub struct WithTexCoords<V, T> {
    pub vertex: V,
    pub tex_coords: T,
}

/// A vertex with its normal vector.
#[derive(Clone, Copy, Debug, PartialEq)]
pub struct WithNormal<V, N> {
    pub vertex: V,
    pub normal: N,
}

/// Pair a vertex with its color.
impl<V, C> From<(V, C)> for WithColor<V, C> {
    fn from(pair: (V, C)) -> (r: Self) {
        WithColor { vertex: pair.0, color: pair.1 }
    }
}

impl<V, C> vstd::std_specs::convert::FromSpecImpl<(V, C)> for WithColor<V, C> {
    open spec fn obeys_from_spec() -> bool {
        true
    }

    open spec fn from_spec(pair: (V, C)) -> Self {
        WithColor { vertex: pair.0, color: pair.1 }
    }
}

/// Pair a vertex with its tex coords.
impl<V, T> From<(V, T)> for WithTexCoords<V, T> {
    fn from(pair: (V, T)) -> (r: Self) {
        WithTexCoords { vertex: pair.0, tex_coords: pair.1 }
    }
}

impl<V, T> vstd::std_specs::convert::FromSpecImpl<(V, T)> for WithTexCoords<V, T> {
    open spec fn obeys_from_spec() -> bool {
        true
    }

    open spec fn from_spec(pair: (V, T)) -> Self {
        WithTexCoords { vertex: pair.0, tex_coords: pair.1 }
    }
}

/// Pair a vertex with its normal.
impl<V, N> From<(V, N)> for WithNormal<V, N> {
    fn from(pair: (V, N)) -> (r: Self) {
        WithNormal { vertex: pair.0, normal: pair.1 }
    }
}

impl<V, N> vstd::std_specs::convert::FromSpecImpl<(V, N)> for WithNormal<V, N> {
    open spec fn obeys_from_spec() -> bool {
        true
    }

    open spec fn from_spec(pair: (V, N)) -> Self {
        WithNormal { vertex: pair.0, normal: pair.1 }
    }
}

} // verus!
