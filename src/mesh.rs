//! Composable multi-channel meshes.
//!
//! A mesh always holds a channel of points. The adaptor types `WithIndices`, `WithColors`,
//! `WithTexCoords` and `WithNormals` each add one more channel to an inner mesh. Every non-index
//! channel holds one element per vertex, so in a well-formed mesh all of them have the length of
//! the point channel. The index channel is independent: it lists vertex indices, three per
//! triangle.

use crate::vertex::{WithColor, WithNormal};
use vstd::prelude::*;

verus! {

/// All meshes contain at least one channel: the positions of their vertices.
pub trait Points {
    /// The type used to represent the location of a vertex.
    type Point;

    /// The contents of the point channel.
    spec fn spec_points(&self) -> Seq<Self::Point>;

    /// Every non-index channel holds exactly one element per point.
    spec fn well_formed(&self) -> bool;

    /// Borrow the point channel.
    fn points(&self) -> (r: &Vec<Self::Point>)
        ensures
            r@ == self.spec_points(),
    ;
}

/// Mesh types that can be indexed to produce a vertex.
pub trait GetVertex: Points {
    /// All channels of the mesh at a single index.
    type Vertex: Copy;

    /// The vertices of the mesh, one per point.
    spec fn spec_vertices(&self) -> Seq<Self::Vertex>;

    /// A well-formed mesh has exactly one vertex per point.
    proof fn lemma_vertex_count(&self)
        requires
            self.well_formed(),
        ensures
            self.spec_vertices().len() == self.spec_points().len(),
    ;

    /// The vertex at `index`, or `None` past the end of the mesh.
    fn get_vertex(&self, index: usize) -> (r: Option<Self::Vertex>)
        requires
            self.well_formed(),
        ensures
            index < self.spec_vertices().len() ==> r == Some(self.spec_vertices()[index as int]),
            index >= self.spec_vertices().len() ==> r is None,
    ;
}

/// Meshes that contain a channel of indices describing the triangles between vertices.
pub trait Indices: Points {
    /// The contents of the index channel.
    spec fn spec_indices(&self) -> Seq<u32>;

    /// Borrow the index channel.
    fn indices(&self) -> (r: &Vec<u32>)
        ensures
            r@ == self.spec_indices(),
    ;
}

/// Meshes that contain a channel of colors.
pub trait Colors: Points {
    /// The color type stored within the channel.
    type Color;

    /// The contents of the color channel.
    spec fn spec_colors(&self) -> Seq<Self::Color>;

    /// A well-formed mesh has exactly one color per point.
    proof fn lemma_color_count(&self)
        requires
            self.well_formed(),
        ensures
            self.spec_colors().len() == self.spec_points().len(),
    ;

    /// Borrow the color channel.
    fn colors(&self) -> (r: &Vec<Self::Color>)
        ensures
            r@ == self.spec_colors(),
    ;
}

/// Meshes that contain a channel of texture coordinates.
pub trait TexCoords: Points {
    /// The type used to represent texture coordinates.
    type TexCoord;

    /// The contents of the texture coordinate channel.
    spec fn spec_tex_coords(&self) -> Seq<Self::TexCoord>;

    /// A well-formed mesh has exactly one texture coordinate per point.
    proof fn lemma_tex_coord_count(&self)
        requires
            self.well_formed(),
        ensures
            self.spec_tex_coords().len() == self.spec_points().len(),
    ;

    /// Borrow the texture coordinate channel.
    fn tex_coords(&self) -> (r: &Vec<Self::TexCoord>)
        ensures
            r@ == self.spec_tex_coords(),
    ;
}

/// Meshes that contain a channel of vertex normals.
pub trait Normals: Points {
    /// The vector type used to represent a normal.
    type Normal;

    /// The contents of the normal channel.
    spec fn spec_normals(&self) -> Seq<Self::Normal>;

    /// A well-formed mesh has exactly one normal per point.
    proof fn lemma_normal_count(&self)
        requires
            self.well_formed(),
        ensures
            self.spec_normals().len() == self.spec_points().len(),
    ;

    /// Borrow the normal channel.
    fn normals(&self) -> (r: &Vec<Self::Normal>)
        ensures
            r@ == self.spec_normals(),
    ;
}

/// Meshes that can push vertices while keeping all non-index channels the same length.
pub trait PushVertex: GetVertex {
    /// Push the given vertex onto every non-index channel of the mesh.
    fn push_vertex(&mut self, vertex: Self::Vertex)
        requires
            old(self).well_formed(),
        ensures
            final(self).well_formed(),
            final(self).spec_vertices() == old(self).spec_vertices().push(vertex),
            final(self).spec_points().len() == old(self).spec_points().len() + 1,
            final(self).spec_points().subrange(0, old(self).spec_points().len() as int)
                == old(self).spec_points(),
    ;
}

/// Meshes that contain an index channel and can push new indices to it.
pub trait PushIndex: Indices + GetVertex {
    /// Push a new index onto the index channel.
    fn push_index(&mut self, index: u32)
        requires
            old(self).well_formed(),
        ensures
            final(self).well_formed(),
            final(self).spec_indices() == old(self).spec_indices().push(index),
            final(self).spec_vertices() == old(self).spec_vertices(),
            final(self).spec_points() == old(self).spec_points(),
    ;

    /// Extend the index channel with the given indices, in order.
    fn extend_indices(&mut self, indices: &[u32])
        requires
            old(self).well_formed(),
        ensures
            final(self).well_formed(),
            final(self).spec_indices() == old(self).spec_indices() + indices@,
            final(self).spec_vertices() == old(self).spec_vertices(),
            final(self).spec_points() == old(self).spec_points(),
    {
        let mut i: usize = 0;
        while i < indices.len()
            invariant
                0 <= i <= indices@.len(),
                self.well_formed(),
                self.spec_indices() == old(self).spec_indices() + indices@.subrange(0, i as int),
                self.spec_vertices() == old(self).spec_vertices(),
                self.spec_points() == old(self).spec_points(),
            decreases indices@.len() - i,
        {
            self.push_index(indices[i]);
            proof {
                assert(indices@.subrange(0, i + 1) == indices@.subrange(0, i as int).push(
                    indices@[i as int],
                ));
            }
            i = i + 1;
        }
        proof {
            assert(indices@.subrange(0, i as int) == indices@);
        }
    }
}

/// Meshes whose index channel can be cleared.
pub trait ClearIndices: Indices + GetVertex {
    /// Clear all indices from the mesh.
    fn clear_indices(&mut self)
        requires
            old(self).well_formed(),
        ensures
            final(self).well_formed(),
            final(self).spec_indices().len() == 0,
            final(self).spec_vertices() == old(self).spec_vertices(),
            final(self).spec_points() == old(self).spec_points(),
    ;
}

/// Meshes whose vertex channels can be cleared.
pub trait ClearVertices: GetVertex {
    /// Clear all vertices from the mesh.
    fn clear_vertices(&mut self)
        requires
            old(self).well_formed(),
        ensures
            final(self).well_formed(),
            final(self).spec_vertices().len() == 0,
            final(self).spec_points().len() == 0,
    ;
}

/// Meshes whose index and vertex channels may be cleared for re-use.
pub trait Clear: ClearIndices + ClearVertices {
    /// Clear every channel of the mesh.
    fn clear(&mut self)
        requires
            old(self).well_formed(),
        ensures
            final(self).well_formed(),
            final(self).spec_indices().len() == 0,
            final(self).spec_vertices().len() == 0,
            final(self).spec_points().len() == 0,
    {
        self.clear_vertices();
        self.clear_indices();
    }
}

/// Meshes whose vertex channels can be cut back to a given length.
pub trait TruncateVertices: GetVertex {
    /// Keep only the first `len` vertices; a mesh with fewer is left as it is.
    fn truncate_vertices(&mut self, len: usize)
        requires
            old(self).well_formed(),
        ensures
            final(self).well_formed(),
            len <= old(self).spec_vertices().len() ==> final(self).spec_vertices()
                == old(self).spec_vertices().subrange(0, len as int),
            len > old(self).spec_vertices().len() ==> final(self).spec_vertices()
                == old(self).spec_vertices(),
    ;
}

/// Meshes whose index channel can be cut back to a given length.
pub trait TruncateIndices: Indices + GetVertex {
    /// Keep only the first `len` indices; a channel with fewer is left as it is.
    fn truncate_indices(&mut self, len: usize)
        requires
            old(self).well_formed(),
        ensures
            final(self).well_formed(),
            len <= old(self).spec_indices().len() ==> final(self).spec_indices()
                == old(self).spec_indices().subrange(0, len as int),
            len > old(self).spec_indices().len() ==> final(self).spec_indices()
                == old(self).spec_indices(),
            final(self).spec_vertices() == old(self).spec_vertices(),
            final(self).spec_points() == old(self).spec_points(),
    ;
}

/// Meshes that may be extended from a slice of vertices.
pub trait ExtendFromSlice: PushVertex {
    /// Push every vertex of the slice, in order.
    fn extend_from_slice(&mut self, vertices: &[Self::Vertex])
        requires
            old(self).well_formed(),
        ensures
            final(self).well_formed(),
            final(self).spec_vertices() == old(self).spec_vertices() + vertices@,
    {
        let mut i: usize = 0;
        while i < vertices.len()
            invariant
                0 <= i <= vertices@.len(),
                self.well_formed(),
                self.spec_vertices() == old(self).spec_vertices() + vertices@.subrange(0, i as int),
            decreases vertices@.len() - i,
        {
            self.push_vertex(vertices[i]);
            proof {
                assert(vertices@.subrange(0, i + 1) == vertices@.subrange(0, i as int).push(
                    vertices@[i as int],
                ));
            }
            i = i + 1;
        }
        proof {
            assert(vertices@.subrange(0, i as int) == vertices@);
        }
    }
}

// Mesh types.

/// The base mesh type with only a single vertex channel.
///
/// Extra channels are added by the `WithIndices`, `WithColors`, `WithTexCoords` and `WithNormals`
/// adaptor types.
#[derive(Clone, Debug)]
pub struct MeshPoints<P> {
    points: Vec<P>,
}

/// A mesh with an added channel of indices describing the triangles between vertices.
#[derive(Clone, Debug)]
pub struct WithIndices<M> {
    mesh: M,
    indices: Vec<u32>,
}

/// A mesh with an added channel of colors.
#[derive(Clone, Debug)]
pub struct WithColors<M, C> {
    mesh: M,
    colors: Vec<C>,
}

/// A mesh with an added channel of texture coordinates.
#[derive(Clone, Debug)]
pub struct WithTexCoords<M, T> {
    mesh: M,
    tex_coords: Vec<T>,
}

/// A mesh with an added channel of vertex normals.
#[derive(Clone, Debug)]
pub struct WithNormals<M, N> {
    mesh: M,
    normals: Vec<N>,
}

impl<M> WithIndices<M> {
    /// The wrapped mesh.
    pub closed spec fn inner(&self) -> M {
        self.mesh
    }

    /// The contents of the channel this adaptor adds.
    pub closed spec fn channel(&self) -> Seq<u32> {
        self.indices@
    }
}

impl<M, C> WithColors<M, C> {
    /// The wrapped mesh.
    pub closed spec fn inner(&self) -> M {
        self.mesh
    }

    /// The contents of the channel this adaptor adds.
    pub closed spec fn channel(&self) -> Seq<C> {
        self.colors@
    }
}

impl<M, T> WithTexCoords<M, T> {
    /// The wrapped mesh.
    pub closed spec fn inner(&self) -> M {
        self.mesh
    }

    /// The contents of the channel this adaptor adds.
    pub closed spec fn channel(&self) -> Seq<T> {
        self.tex_coords@
    }
}

impl<M, N> WithNormals<M, N> {
    /// The wrapped mesh.
    pub closed spec fn inner(&self) -> M {
        self.mesh
    }

    /// The contents of the channel this adaptor adds.
    pub closed spec fn channel(&self) -> Seq<N> {
        self.normals@
    }
}

// Points and vertices.

impl<P> Points for MeshPoints<P> {
    type Point = P;

    closed spec fn spec_points(&self) -> Seq<P> {
        self.points@
    }

    open spec fn well_formed(&self) -> bool {
        true
    }

    fn points(&self) -> (r: &Vec<P>) {
        &self.points
    }
}

impl<M: Points> Points for WithIndices<M> {
    type Point = M::Point;

    open spec fn spec_points(&self) -> Seq<M::Point> {
        self.inner().spec_points()
    }

    open spec fn well_formed(&self) -> bool {
        self.inner().well_formed()
    }

    fn points(&self) -> (r: &Vec<M::Point>) {
        self.mesh.points()
    }
}

impl<M: Points, C> Points for WithColors<M, C> {
    type Point = M::Point;

    open spec fn spec_points(&self) -> Seq<M::Point> {
        self.inner().spec_points()
    }

    open spec fn well_formed(&self) -> bool {
        &&& self.inner().well_formed()
        &&& self.channel().len() == self.inner().spec_points().len()
    }

    fn points(&self) -> (r: &Vec<M::Point>) {
        self.mesh.points()
    }
}

impl<M: Points, T> Points for WithTexCoords<M, T> {
    type Point = M::Point;

    open spec fn spec_points(&self) -> Seq<M::Point> {
        self.inner().spec_points()
    }

    open spec fn well_formed(&self) -> bool {
        &&& self.inner().well_formed()
        &&& self.channel().len() == self.inner().spec_points().len()
    }

    fn points(&self) -> (r: &Vec<M::Point>) {
        self.mesh.points()
    }
}

impl<M: Points, N> Points for WithNormals<M, N> {
    type Point = M::Point;

    open spec fn spec_points(&self) -> Seq<M::Point> {
        self.inner().spec_points()
    }

    open spec fn well_formed(&self) -> bool {
        &&& self.inner().well_formed()
        &&& self.channel().len() == self.inner().spec_points().len()
    }

    fn points(&self) -> (r: &Vec<M::Point>) {
        self.mesh.points()
    }
}

impl<P: Copy> GetVertex for MeshPoints<P> {
    type Vertex = P;

    open spec fn spec_vertices(&self) -> Seq<P> {
        self.spec_points()
    }

    proof fn lemma_vertex_count(&self) {
    }

    fn get_vertex(&self, index: usize) -> (r: Option<P>) {
        if index < self.points.len() {
            Some(self.points[index])
        } else {
            None
        }
    }
}

impl<M: GetVertex> GetVertex for WithIndices<M> {
    type Vertex = M::Vertex;

    open spec fn spec_vertices(&self) -> Seq<M::Vertex> {
        self.inner().spec_vertices()
    }

    proof fn lemma_vertex_count(&self) {
        self.inner().lemma_vertex_count();
    }

    fn get_vertex(&self, index: usize) -> (r: Option<M::Vertex>) {
        self.mesh.get_vertex(index)
    }
}

impl<M: GetVertex, C: Copy> GetVertex for WithColors<M, C> {
    type Vertex = WithColor<M::Vertex, C>;

    open spec fn spec_vertices(&self) -> Seq<WithColor<M::Vertex, C>> {
        Seq::new(
            self.inner().spec_vertices().len(),
            |i: int| WithColor { vertex: self.inner().spec_vertices()[i], color: self.channel()[i] },
        )
    }

    proof fn lemma_vertex_count(&self) {
        self.inner().lemma_vertex_count();
    }

    fn get_vertex(&self, index: usize) -> (r: Option<WithColor<M::Vertex, C>>) {
        proof {
            self.mesh.lemma_vertex_count();
        }
        match self.mesh.get_vertex(index) {
            Some(vertex) => {
                if index < self.colors.len() {
                    Some(WithColor { vertex, color: self.colors[index] })
                } else {
                    None
                }
            },
            None => None,
        }
    }
}

impl<M: GetVertex, T: Copy> GetVertex for WithTexCoords<M, T> {
    type Vertex = crate::vertex::WithTexCoords<M::Vertex, T>;

    open spec fn spec_vertices(&self) -> Seq<crate::vertex::WithTexCoords<M::Vertex, T>> {
        Seq::new(
            self.inner().spec_vertices().len(),
            |i: int|
                crate::vertex::WithTexCoords {
                    vertex: self.inner().spec_vertices()[i],
                    tex_coords: self.channel()[i],
                },
        )
    }

    proof fn lemma_vertex_count(&self) {
        self.inner().lemma_vertex_count();
    }

    fn get_vertex(&self, index: usize) -> (r: Option<crate::vertex::WithTexCoords<M::Vertex, T>>) {
        proof {
            self.mesh.lemma_vertex_count();
        }
        match self.mesh.get_vertex(index) {
            Some(vertex) => {
                if index < self.tex_coords.len() {
                    Some(crate::vertex::WithTexCoords { vertex, tex_coords: self.tex_coords[index] })
                } else {
                    None
                }
            },
            None => None,
        }
    }
}

impl<M: GetVertex, N: Copy> GetVertex for WithNormals<M, N> {
    type Vertex = WithNormal<M::Vertex, N>;

    open spec fn spec_vertices(&self) -> Seq<WithNormal<M::Vertex, N>> {
        Seq::new(
            self.inner().spec_vertices().len(),
            |i: int| WithNormal { vertex: self.inner().spec_vertices()[i], normal: self.channel()[i] },
        )
    }

    proof fn lemma_vertex_count(&self) {
        self.inner().lemma_vertex_count();
    }

    fn get_vertex(&self, index: usize) -> (r: Option<WithNormal<M::Vertex, N>>) {
        proof {
            self.mesh.lemma_vertex_count();
        }
        match self.mesh.get_vertex(index) {
            Some(vertex) => {
                if index < self.normals.len() {
                    Some(WithNormal { vertex, normal: self.normals[index] })
                } else {
                    None
                }
            },
            None => None,
        }
    }
}

// Channel access.

impl<M: Points> Indices for WithIndices<M> {
    open spec fn spec_indices(&self) -> Seq<u32> {
        self.channel()
    }

    fn indices(&self) -> (r: &Vec<u32>) {
        &self.indices
    }
}

impl<M: Indices, C> Indices for WithColors<M, C> {
    open spec fn spec_indices(&self) -> Seq<u32> {
        self.inner().spec_indices()
    }

    fn indices(&self) -> (r: &Vec<u32>) {
        self.mesh.indices()
    }
}

impl<M: Indices, T> Indices for WithTexCoords<M, T> {
    open spec fn spec_indices(&self) -> Seq<u32> {
        self.inner().spec_indices()
    }

    fn indices(&self) -> (r: &Vec<u32>) {
        self.mesh.indices()
    }
}

impl<M: Indices, N> Indices for WithNormals<M, N> {
    open spec fn spec_indices(&self) -> Seq<u32> {
        self.inner().spec_indices()
    }

    fn indices(&self) -> (r: &Vec<u32>) {
        self.mesh.indices()
    }
}

impl<M: Points, C> Colors for WithColors<M, C> {
    type Color = C;

    open spec fn spec_colors(&self) -> Seq<C> {
        self.channel()
    }

    proof fn lemma_color_count(&self) {
    }

    fn colors(&self) -> (r: &Vec<C>) {
        &self.colors
    }
}

impl<M: Colors> Colors for WithIndices<M> {
    type Color = M::Color;

    open spec fn spec_colors(&self) -> Seq<M::Color> {
        self.inner().spec_colors()
    }

    proof fn lemma_color_count(&self) {
        self.inner().lemma_color_count();
    }

    fn colors(&self) -> (r: &Vec<M::Color>) {
        self.mesh.colors()
    }
}

impl<M: Colors, T> Colors for WithTexCoords<M, T> {
    type Color = M::Color;

    open spec fn spec_colors(&self) -> Seq<M::Color> {
        self.inner().spec_colors()
    }

    proof fn lemma_color_count(&self) {
        self.inner().lemma_color_count();
    }

    fn colors(&self) -> (r: &Vec<M::Color>) {
        self.mesh.colors()
    }
}

impl<M: Colors, N> Colors for WithNormals<M, N> {
    type Color = M::Color;

    open spec fn spec_colors(&self) -> Seq<M::Color> {
        self.inner().spec_colors()
    }

    proof fn lemma_color_count(&self) {
        self.inner().lemma_color_count();
    }

    fn colors(&self) -> (r: &Vec<M::Color>) {
        self.mesh.colors()
    }
}

impl<M: Points, T> TexCoords for WithTexCoords<M, T> {
    type TexCoord = T;

    open spec fn spec_tex_coords(&self) -> Seq<T> {
        self.channel()
    }

    proof fn lemma_tex_coord_count(&self) {
    }

    fn tex_coords(&self) -> (r: &Vec<T>) {
        &self.tex_coords
    }
}

impl<M: TexCoords> TexCoords for WithIndices<M> {
    type TexCoord = M::TexCoord;

    open spec fn spec_tex_coords(&self) -> Seq<M::TexCoord> {
        self.inner().spec_tex_coords()
    }

    proof fn lemma_tex_coord_count(&self) {
        self.inner().lemma_tex_coord_count();
    }

    fn tex_coords(&self) -> (r: &Vec<M::TexCoord>) {
        self.mesh.tex_coords()
    }
}

impl<M: TexCoords, C> TexCoords for WithColors<M, C> {
    type TexCoord = M::TexCoord;

    open spec fn spec_tex_coords(&self) -> Seq<M::TexCoord> {
        self.inner().spec_tex_coords()
    }

    proof fn lemma_tex_coord_count(&self) {
        self.inner().lemma_tex_coord_count();
    }

    fn tex_coords(&self) -> (r: &Vec<M::TexCoord>) {
        self.mesh.tex_coords()
    }
}

impl<M: TexCoords, N> TexCoords for WithNormals<M, N> {
    type TexCoord = M::TexCoord;

    open spec fn spec_tex_coords(&self) -> Seq<M::TexCoord> {
        self.inner().spec_tex_coords()
    }

    proof fn lemma_tex_coord_count(&self) {
        self.inner().lemma_tex_coord_count();
    }

    fn tex_coords(&self) -> (r: &Vec<M::TexCoord>) {
        self.mesh.tex_coords()
    }
}

impl<M: Points, N> Normals for WithNormals<M, N> {
    type Normal = N;

    open spec fn spec_normals(&self) -> Seq<N> {
        self.channel()
    }

    proof fn lemma_normal_count(&self) {
    }

    fn normals(&self) -> (r: &Vec<N>) {
        &self.normals
    }
}

impl<M: Normals> Normals for WithIndices<M> {
    type Normal = M::Normal;

    open spec fn spec_normals(&self) -> Seq<M::Normal> {
        self.inner().spec_normals()
    }

    proof fn lemma_normal_count(&self) {
        self.inner().lemma_normal_count();
    }

    fn normals(&self) -> (r: &Vec<M::Normal>) {
        self.mesh.normals()
    }
}

impl<M: Normals, C> Normals for WithColors<M, C> {
    type Normal = M::Normal;

    open spec fn spec_normals(&self) -> Seq<M::Normal> {
        self.inner().spec_normals()
    }

    proof fn lemma_normal_count(&self) {
        self.inner().lemma_normal_count();
    }

    fn normals(&self) -> (r: &Vec<M::Normal>) {
        self.mesh.normals()
    }
}

impl<M: Normals, T> Normals for WithTexCoords<M, T> {
    type Normal = M::Normal;

    open spec fn spec_normals(&self) -> Seq<M::Normal> {
        self.inner().spec_normals()
    }

    proof fn lemma_normal_count(&self) {
        self.inner().lemma_normal_count();
    }

    fn normals(&self) -> (r: &Vec<M::Normal>) {
        self.mesh.normals()
    }
}

// Pushing vertices.

impl<P: Copy> PushVertex for MeshPoints<P> {
    fn push_vertex(&mut self, vertex: P) {
        self.points.push(vertex);
        proof {
            assert(self.points@.subrange(0, old(self).points@.len() as int) =~= old(self).points@);
        }
    }
}

impl<M: PushVertex> PushVertex for WithIndices<M> {
    fn push_vertex(&mut self, vertex: M::Vertex)
        ensures
            final(self).channel() == old(self).channel(),
    {
        self.mesh.push_vertex(vertex);
    }
}

impl<M: PushVertex, C: Copy> PushVertex for WithColors<M, C> {
    fn push_vertex(&mut self, vertex: WithColor<M::Vertex, C>)
        ensures
            final(self).channel() == old(self).channel().push(vertex.color),
    {
        proof {
            self.mesh.lemma_vertex_count();
        }
        let WithColor { vertex, color } = vertex;
        self.colors.push(color);
        self.mesh.push_vertex(vertex);
        proof {
            assert(self.spec_vertices() =~= old(self).spec_vertices().push(
                WithColor { vertex, color },
            ));
        }
    }
}

impl<M: PushVertex, T: Copy> PushVertex for WithTexCoords<M, T> {
    fn push_vertex(&mut self, vertex: crate::vertex::WithTexCoords<M::Vertex, T>)
        ensures
            final(self).channel() == old(self).channel().push(vertex.tex_coords),
    {
        proof {
            self.mesh.lemma_vertex_count();
        }
        let crate::vertex::WithTexCoords { vertex, tex_coords } = vertex;
        self.tex_coords.push(tex_coords);
        self.mesh.push_vertex(vertex);
        proof {
            assert(self.spec_vertices() =~= old(self).spec_vertices().push(
                crate::vertex::WithTexCoords { vertex, tex_coords },
            ));
        }
    }
}

impl<M: PushVertex, N: Copy> PushVertex for WithNormals<M, N> {
    fn push_vertex(&mut self, vertex: WithNormal<M::Vertex, N>)
        ensures
            final(self).channel() == old(self).channel().push(vertex.normal),
    {
        proof {
            self.mesh.lemma_vertex_count();
        }
        let WithNormal { vertex, normal } = vertex;
        self.normals.push(normal);
        self.mesh.push_vertex(vertex);
        proof {
            assert(self.spec_vertices() =~= old(self).spec_vertices().push(
                WithNormal { vertex, normal },
            ));
        }
    }
}

// Pushing indices.

impl<M: GetVertex> PushIndex for WithIndices<M> {
    fn push_index(&mut self, index: u32) {
        self.indices.push(index);
    }
}

impl<M: PushIndex, C: Copy> PushIndex for WithColors<M, C> {
    fn push_index(&mut self, index: u32) {
        self.mesh.push_index(index);
        proof {
            assert(self.spec_vertices() =~= old(self).spec_vertices());
        }
    }

    fn extend_indices(&mut self, indices: &[u32]) {
        self.mesh.extend_indices(indices);
        proof {
            assert(self.spec_vertices() =~= old(self).spec_vertices());
        }
    }
}

impl<M: PushIndex, T: Copy> PushIndex for WithTexCoords<M, T> {
    fn push_index(&mut self, index: u32) {
        self.mesh.push_index(index);
        proof {
            assert(self.spec_vertices() =~= old(self).spec_vertices());
        }
    }

    fn extend_indices(&mut self, indices: &[u32]) {
        self.mesh.extend_indices(indices);
        proof {
            assert(self.spec_vertices() =~= old(self).spec_vertices());
        }
    }
}

impl<M: PushIndex, N: Copy> PushIndex for WithNormals<M, N> {
    fn push_index(&mut self, index: u32) {
        self.mesh.push_index(index);
        proof {
            assert(self.spec_vertices() =~= old(self).spec_vertices());
        }
    }

    fn extend_indices(&mut self, indices: &[u32]) {
        self.mesh.extend_indices(indices);
        proof {
            assert(self.spec_vertices() =~= old(self).spec_vertices());
        }
    }
}

// Clearing.

impl<M: GetVertex> ClearIndices for WithIndices<M> {
    fn clear_indices(&mut self) {
        self.indices.clear();
    }
}

impl<M: ClearIndices, C: Copy> ClearIndices for WithColors<M, C> {
    fn clear_indices(&mut self) {
        self.mesh.clear_indices();
        proof {
            assert(self.spec_vertices() =~= old(self).spec_vertices());
        }
    }
}

impl<M: ClearIndices, T: Copy> ClearIndices for WithTexCoords<M, T> {
    fn clear_indices(&mut self) {
        self.mesh.clear_indices();
        proof {
            assert(self.spec_vertices() =~= old(self).spec_vertices());
        }
    }
}

impl<M: ClearIndices, N: Copy> ClearIndices for WithNormals<M, N> {
    fn clear_indices(&mut self) {
        self.mesh.clear_indices();
        proof {
            assert(self.spec_vertices() =~= old(self).spec_vertices());
        }
    }
}

impl<P: Copy> ClearVertices for MeshPoints<P> {
    fn clear_vertices(&mut self) {
        self.points.clear();
    }
}

impl<M: ClearVertices> ClearVertices for WithIndices<M> {
    /// Vertex indices are meaningless without their vertices, so the index channel is cleared too.
    fn clear_vertices(&mut self)
        ensures
            final(self).channel().len() == 0,
    {
        self.mesh.clear_vertices();
        self.indices.clear();
    }
}

impl<M: ClearVertices, C: Copy> ClearVertices for WithColors<M, C> {
    fn clear_vertices(&mut self) {
        self.mesh.clear_vertices();
        self.colors.clear();
    }
}

impl<M: ClearVertices, T: Copy> ClearVertices for WithTexCoords<M, T> {
    fn clear_vertices(&mut self) {
        self.mesh.clear_vertices();
        self.tex_coords.clear();
    }
}

impl<M: ClearVertices, N: Copy> ClearVertices for WithNormals<M, N> {
    fn clear_vertices(&mut self) {
        self.mesh.clear_vertices();
        self.normals.clear();
    }
}

impl<X: ClearIndices + ClearVertices> Clear for X {}

impl<P: Copy> ExtendFromSlice for MeshPoints<P> {}

impl<M: PushVertex> ExtendFromSlice for WithIndices<M> {}

impl<M: PushVertex, C: Copy> ExtendFromSlice for WithColors<M, C> {}

impl<M: PushVertex, T: Copy> ExtendFromSlice for WithTexCoords<M, T> {}

impl<M: PushVertex, N: Copy> ExtendFromSlice for WithNormals<M, N> {}

// Mesh length functions.

/// Every entry of the index channel refers to a vertex of the mesh.
pub open spec fn indices_in_bounds<M: Indices + GetVertex>(mesh: M) -> bool {
    forall|k: int|
        0 <= k < mesh.spec_indices().len() ==> (#[trigger] mesh.spec_indices()[k]) < mesh.spec_vertices().len()
}

/// The vertices named by the index channel, in the order of the channel.
pub open spec fn indexed_vertices<M: Indices + GetVertex>(mesh: M) -> Seq<M::Vertex> {
    mesh.spec_indices().map_values(|i: u32| mesh.spec_vertices()[i as int])
}

/// The number of vertices in the mesh.
pub fn raw_vertex_count<M: Points>(mesh: &M) -> (r: usize)
    ensures
        r == mesh.spec_points().len(),
{
    mesh.points().len()
}

/// The number of vertices named by the mesh's index channel.
pub fn vertex_count<M: Indices>(mesh: &M) -> (r: usize)
    ensures
        r == mesh.spec_indices().len(),
{
    mesh.indices().len()
}

/// The number of whole triangles described by the mesh's index channel.
pub fn triangle_count<M: Indices>(mesh: &M) -> (r: usize)
    ensures
        r == mesh.spec_indices().len() / 3,
{
    vertex_count(mesh) / 3
}

// Mesh constructors.

/// Create a base mesh from the given channel of vertex points.
pub fn from_points<P>(points: Vec<P>) -> (r: MeshPoints<P>)
    ensures
        r.spec_points() == points@,
        r.well_formed(),
{
    MeshPoints { points }
}

/// Combine the given mesh with the given channel of vertex indices.
pub fn with_indices<M: Points>(mesh: M, indices: Vec<u32>) -> (r: WithIndices<M>)
    ensures
        r.inner() == mesh,
        r.channel() == indices@,
{
    WithIndices { mesh, indices }
}

/// Combine the given mesh with the given channel of vertex colors, one per point.
pub fn with_colors<M: Points, C>(mesh: M, colors: Vec<C>) -> (r: WithColors<M, C>)
    requires
        colors@.len() == mesh.spec_points().len(),
    ensures
        r.inner() == mesh,
        r.channel() == colors@,
{
    WithColors { mesh, colors }
}

/// Combine the given mesh with the given channel of texture coordinates, one per point.
pub fn with_tex_coords<M: Points, T>(mesh: M, tex_coords: Vec<T>) -> (r: WithTexCoords<M, T>)
    requires
        tex_coords@.len() == mesh.spec_points().len(),
    ensures
        r.inner() == mesh,
        r.channel() == tex_coords@,
{
    WithTexCoords { mesh, tex_coords }
}

/// Combine the given mesh with the given channel of normals, one per point.
pub fn with_normals<M: Points, N>(mesh: M, normals: Vec<N>) -> (r: WithNormals<M, N>)
    requires
        normals@.len() == mesh.spec_points().len(),
    ensures
        r.inner() == mesh,
        r.channel() == normals@,
{
    WithNormals { mesh, normals }
}

// Mesh mutation functions.

/// Push the given vertex onto the mesh.
pub fn push_vertex<M: PushVertex>(mesh: &mut M, vertex: M::Vertex)
    requires
        old(mesh).well_formed(),
    ensures
        final(mesh).well_formed(),
        final(mesh).spec_vertices() == old(mesh).spec_vertices().push(vertex),
        final(mesh).spec_points().len() == old(mesh).spec_points().len() + 1,
{
    mesh.push_vertex(vertex);
}

/// Push every given vertex onto the mesh, in order.
pub fn extend_vertices<M: PushVertex>(mesh: &mut M, vertices: Vec<M::Vertex>)
    requires
        old(mesh).well_formed(),
    ensures
        final(mesh).well_formed(),
        final(mesh).spec_vertices() == old(mesh).spec_vertices() + vertices@,
{
    let mut i: usize = 0;
    while i < vertices.len()
        invariant
            0 <= i <= vertices@.len(),
            mesh.well_formed(),
            mesh.spec_vertices() == old(mesh).spec_vertices() + vertices@.subrange(0, i as int),
        decreases vertices@.len() - i,
    {
        push_vertex(mesh, vertices[i]);
        proof {
            assert(vertices@.subrange(0, i + 1) == vertices@.subrange(0, i as int).push(
                vertices@[i as int],
            ));
        }
        i = i + 1;
    }
    proof {
        assert(vertices@.subrange(0, i as int) == vertices@);
    }
}

/// Push the given index onto the mesh's index channel.
pub fn push_index<M: PushIndex>(mesh: &mut M, index: u32)
    requires
        old(mesh).well_formed(),
    ensures
        final(mesh).well_formed(),
        final(mesh).spec_indices() == old(mesh).spec_indices().push(index),
        final(mesh).spec_vertices() == old(mesh).spec_vertices(),
{
    mesh.push_index(index);
}

/// Extend the mesh's index channel with the given indices.
pub fn extend_indices<M: PushIndex>(mesh: &mut M, indices: &[u32])
    requires
        old(mesh).well_formed(),
    ensures
        final(mesh).well_formed(),
        final(mesh).spec_indices() == old(mesh).spec_indices() + indices@,
        final(mesh).spec_vertices() == old(mesh).spec_vertices(),
{
    mesh.extend_indices(indices);
}

/// Clear all vertices from the mesh.
pub fn clear_vertices<M: ClearVertices>(mesh: &mut M)
    requires
        old(mesh).well_formed(),
    ensures
        final(mesh).well_formed(),
        final(mesh).spec_vertices().len() == 0,
        final(mesh).spec_points().len() == 0,
{
    mesh.clear_vertices();
}

/// Clear all indices from the mesh.
pub fn clear_indices<M: ClearIndices>(mesh: &mut M)
    requires
        old(mesh).well_formed(),
    ensures
        final(mesh).well_formed(),
        final(mesh).spec_indices().len() == 0,
        final(mesh).spec_vertices() == old(mesh).spec_vertices(),
{
    mesh.clear_indices();
}

/// Clear all vertices and indices from the mesh.
pub fn clear<M: Clear>(mesh: &mut M)
    requires
        old(mesh).well_formed(),
    ensures
        final(mesh).well_formed(),
        final(mesh).spec_indices().len() == 0,
        final(mesh).spec_vertices().len() == 0,
{
    mesh.clear();
}

// Mesh iterators.

/// Yields the raw vertices of a mesh, with all channels combined, over a range of positions.
#[derive(Clone, Debug)]
pub struct RawVertices<M> {
    start: usize,
    end: usize,
    mesh: M,
}

/// Yields vertices in the order given by a range of the mesh's index channel.
#[derive(Clone, Debug)]
pub struct Vertices<M> {
    start: usize,
    end: usize,
    mesh: M,
}

/// An iterator over every raw vertex of the mesh.
pub fn raw_vertices<M: Points>(mesh: M) -> (r: RawVertices<M>)
    ensures
        r.front() == 0,
        r.back() == mesh.spec_points().len(),
        r.source() == mesh,
{
    let len = raw_vertex_count(&mesh);
    RawVertices { start: 0, end: len, mesh }
}

/// An iterator over the vertices named by every entry of the mesh's index channel.
pub fn vertices<M: Indices>(mesh: M) -> (r: Vertices<M>)
    ensures
        r.front() == 0,
        r.back() == mesh.spec_indices().len(),
        r.source() == mesh,
{
    let len = vertex_count(&mesh);
    Vertices { start: 0, end: len, mesh }
}

/// The triangles described by the mesh's index channel: one for each whole group of three
/// indices.
pub fn triangles<M: Indices + GetVertex>(mesh: &M) -> (r: Vec<(M::Vertex, M::Vertex, M::Vertex)>)
    requires
        mesh.well_formed(),
        indices_in_bounds(*mesh),
    ensures
        r@.len() == mesh.spec_indices().len() / 3,
        forall|t: int|
            0 <= t < r@.len() ==> #[trigger] r@[t] == (
                indexed_vertices(*mesh)[3 * t],
                indexed_vertices(*mesh)[3 * t + 1],
                indexed_vertices(*mesh)[3 * t + 2],
            ),
{
    let indices = mesh.indices();
    let n = indices.len();
    let count = triangle_count(mesh);
    let mut r: Vec<(M::Vertex, M::Vertex, M::Vertex)> = Vec::new();
    let mut t: usize = 0;
    while t < count
        invariant
            0 <= t <= count,
            count == mesh.spec_indices().len() / 3,
            indices@ == mesh.spec_indices(),
            n == indices@.len(),
            mesh.well_formed(),
            indices_in_bounds(*mesh),
            r@.len() == t,
            forall|u: int|
                0 <= u < t ==> #[trigger] r@[u] == (
                    indexed_vertices(*mesh)[3 * u],
                    indexed_vertices(*mesh)[3 * u + 1],
                    indexed_vertices(*mesh)[3 * u + 2],
                ),
        decreases count - t,
    {
        proof {
            assert(3 * t + 3 <= n) by (nonlinear_arith)
                requires
                    t < count,
                    count == n / 3,
            ;
        }
        let k = 3 * t;
        let a = mesh.get_vertex(indices[k] as usize);
        let b = mesh.get_vertex(indices[k + 1] as usize);
        let c = mesh.get_vertex(indices[k + 2] as usize);
        match (a, b, c) {
            (Some(a), Some(b), Some(c)) => {
                r.push((a, b, c));
            },
            _ => {
                proof {
                    assert(mesh.spec_indices()[k as int] < mesh.spec_vertices().len());
                    assert(mesh.spec_indices()[k + 1] < mesh.spec_vertices().len());
                    assert(mesh.spec_indices()[k + 2] < mesh.spec_vertices().len());
                }
            },
        }
        t = t + 1;
    }
    r
}

impl<M> RawVertices<M> {
    /// The next position to yield.
    pub closed spec fn front(&self) -> int {
        self.start as int
    }

    /// The position at which the iterator stops.
    pub closed spec fn back(&self) -> int {
        self.end as int
    }

    /// The mesh whose vertices are yielded.
    pub closed spec fn source(&self) -> M {
        self.mesh
    }

    /// Yield the raw vertices at positions `start..end` instead.
    pub fn range(self, start: usize, end: usize) -> (r: Self)
        ensures
            r.front() == start,
            r.back() == end,
            r.source() == self.source(),
    {
        RawVertices { start, end, mesh: self.mesh }
    }

    /// The number of positions left to yield.
    pub fn len(&self) -> (r: usize)
        ensures
            r == if self.front() < self.back() { self.back() - self.front() } else { 0 },
    {
        if self.start < self.end {
            self.end - self.start
        } else {
            0
        }
    }
}

impl<M: GetVertex> RawVertices<M> {
    /// The vertex at the next position, or `None` once the range is done or leaves the mesh.
    pub fn next(&mut self) -> (r: Option<M::Vertex>)
        requires
            old(self).source().well_formed(),
        ensures
            final(self).source() == old(self).source(),
            final(self).back() == old(self).back(),
            old(self).front() < old(self).back() ==> final(self).front() == old(self).front() + 1,
            old(self).front() >= old(self).back() ==> final(self).front() == old(self).front(),
            r == if old(self).front() < old(self).back() && old(self).front()
                < old(self).source().spec_vertices().len() {
                Some(old(self).source().spec_vertices()[old(self).front()])
            } else {
                None::<M::Vertex>
            },
    {
        if self.start < self.end {
            let i = self.start;
            self.start = self.start + 1;
            self.mesh.get_vertex(i)
        } else {
            None
        }
    }
}

impl<M> Vertices<M> {
    /// The next index position to yield.
    pub closed spec fn front(&self) -> int {
        self.start as int
    }

    /// The index position at which the iterator stops.
    pub closed spec fn back(&self) -> int {
        self.end as int
    }

    /// The mesh whose vertices are yielded.
    pub closed spec fn source(&self) -> M {
        self.mesh
    }

    /// Yield the vertices named by the index positions `start..end` instead.
    pub fn index_range(self, start: usize, end: usize) -> (r: Self)
        ensures
            r.front() == start,
            r.back() == end,
            r.source() == self.source(),
    {
        Vertices { start, end, mesh: self.mesh }
    }
}

impl<M: Indices> Vertices<M> {
    /// The number of vertices left to yield.
    pub fn len(&self) -> (r: usize)
        ensures
            r == vstd::math::min(
                vstd::math::max(self.source().spec_indices().len() - self.front(), 0),
                vstd::math::max(self.back() - self.front(), 0),
            ),
    {
        let indices_len = self.mesh.indices().len();
        let remaining_indices = if self.start < indices_len {
            indices_len - self.start
        } else {
            0
        };
        let range_len = if self.start < self.end {
            self.end - self.start
        } else {
            0
        };
        if remaining_indices < range_len {
            remaining_indices
        } else {
            range_len
        }
    }
}

impl<M: Indices + GetVertex> Vertices<M> {
    /// The vertex named by the next index position, or `None` once the range or the index
    /// channel is done.
    pub fn next(&mut self) -> (r: Option<M::Vertex>)
        requires
            old(self).source().well_formed(),
            indices_in_bounds(old(self).source()),
        ensures
            final(self).source() == old(self).source(),
            final(self).back() == old(self).back(),
            old(self).front() < old(self).back() ==> final(self).front() == old(self).front() + 1,
            old(self).front() >= old(self).back() ==> final(self).front() == old(self).front(),
            r == if old(self).front() < old(self).back() && old(self).front()
                < old(self).source().spec_indices().len() {
                Some(indexed_vertices(old(self).source())[old(self).front()])
            } else {
                None::<M::Vertex>
            },
    {
        if self.start < self.end {
            let i = self.start;
            self.start = self.start + 1;
            let indices = self.mesh.indices();
            if i < indices.len() {
                let index = indices[i];
                let vertex = self.mesh.get_vertex(index as usize);
                proof {
                    assert(self.mesh.spec_indices()[i as int] < self.mesh.spec_vertices().len());
                }
                vertex
            } else {
                None
            }
        } else {
            None
        }
    }

    /// The vertex named by the last index position, taken from the back of the range.
    pub fn next_back(&mut self) -> (r: Option<M::Vertex>)
        requires
            old(self).source().well_formed(),
            indices_in_bounds(old(self).source()),
        ensures
            final(self).source() == old(self).source(),
            final(self).front() == old(self).front(),
            old(self).front() < old(self).back() ==> final(self).back() == old(self).back() - 1,
            old(self).front() >= old(self).back() ==> final(self).back() == old(self).back(),
            r == if old(self).front() < old(self).back() && old(self).back() - 1
                < old(self).source().spec_indices().len() {
                Some(indexed_vertices(old(self).source())[old(self).back() - 1])
            } else {
                None::<M::Vertex>
            },
    {
        if self.start < self.end {
            self.end = self.end - 1;
            let i = self.end;
            let indices = self.mesh.indices();
            if i < indices.len() {
                let index = indices[i];
                let vertex = self.mesh.get_vertex(index as usize);
                proof {
                    assert(self.mesh.spec_indices()[i as int] < self.mesh.spec_vertices().len());
                }
                vertex
            } else {
                None
            }
        } else {
            None
        }
    }
}

// Truncation.

impl<P: Copy> TruncateVertices for MeshPoints<P> {
    fn truncate_vertices(&mut self, len: usize) {
        self.points.truncate(len);
    }
}

impl<M: TruncateVertices> TruncateVertices for WithIndices<M> {
    fn truncate_vertices(&mut self, len: usize)
        ensures
            final(self).channel() == old(self).channel(),
    {
        self.mesh.truncate_vertices(len);
    }
}

impl<M: TruncateVertices, C: Copy> TruncateVertices for WithColors<M, C> {
    fn truncate_vertices(&mut self, len: usize) {
        proof {
            self.mesh.lemma_vertex_count();
        }
        self.mesh.truncate_vertices(len);
        self.colors.truncate(len);
        proof {
            self.mesh.lemma_vertex_count();
            if len <= old(self).spec_vertices().len() {
                assert(self.spec_vertices() =~= old(self).spec_vertices().subrange(0, len as int));
            } else {
                assert(self.spec_vertices() =~= old(self).spec_vertices());
            }
        }
    }
}

impl<M: TruncateVertices, T: Copy> TruncateVertices for WithTexCoords<M, T> {
    fn truncate_vertices(&mut self, len: usize) {
        proof {
            self.mesh.lemma_vertex_count();
        }
        self.mesh.truncate_vertices(len);
        self.tex_coords.truncate(len);
        proof {
            self.mesh.lemma_vertex_count();
            if len <= old(self).spec_vertices().len() {
                assert(self.spec_vertices() =~= old(self).spec_vertices().subrange(0, len as int));
            } else {
                assert(self.spec_vertices() =~= old(self).spec_vertices());
            }
        }
    }
}

impl<M: TruncateVertices, N: Copy> TruncateVertices for WithNormals<M, N> {
    fn truncate_vertices(&mut self, len: usize) {
        proof {
            self.mesh.lemma_vertex_count();
        }
        self.mesh.truncate_vertices(len);
        self.normals.truncate(len);
        proof {
            self.mesh.lemma_vertex_count();
            if len <= old(self).spec_vertices().len() {
                assert(self.spec_vertices() =~= old(self).spec_vertices().subrange(0, len as int));
            } else {
                assert(self.spec_vertices() =~= old(self).spec_vertices());
            }
        }
    }
}

impl<M: GetVertex> TruncateIndices for WithIndices<M> {
    fn truncate_indices(&mut self, len: usize) {
        self.indices.truncate(len);
    }
}

impl<M: TruncateIndices, C: Copy> TruncateIndices for WithColors<M, C> {
    fn truncate_indices(&mut self, len: usize) {
        self.mesh.truncate_indices(len);
        proof {
            assert(self.spec_vertices() =~= old(self).spec_vertices());
        }
    }
}

impl<M: TruncateIndices, T: Copy> TruncateIndices for WithTexCoords<M, T> {
    fn truncate_indices(&mut self, len: usize) {
        self.mesh.truncate_indices(len);
        proof {
            assert(self.spec_vertices() =~= old(self).spec_vertices());
        }
    }
}

impl<M: TruncateIndices, N: Copy> TruncateIndices for WithNormals<M, N> {
    fn truncate_indices(&mut self, len: usize) {
        self.mesh.truncate_indices(len);
        proof {
            assert(self.spec_vertices() =~= old(self).spec_vertices());
        }
    }
}

/// In a well-formed mesh the color and texture-coordinate channels are exactly as long as the
/// point channel. Constructors establish well-formedness and every push, extension, truncation
/// and clear preserves it, so this holds after any sequence of such calls.
pub proof fn lemma_channels_in_step<M: Colors + TexCoords>(mesh: M)
    requires
        mesh.well_formed(),
    ensures
        mesh.spec_colors().len() == mesh.spec_points().len(),
        mesh.spec_tex_coords().len() == mesh.spec_points().len(),
{
    mesh.lemma_color_count();
    mesh.lemma_tex_coord_count();
}

// Shared references to meshes are meshes too.

impl<'a, M: Points> Points for &'a M {
    type Point = M::Point;

    open spec fn spec_points(&self) -> Seq<M::Point> {
        (**self).spec_points()
    }

    open spec fn well_formed(&self) -> bool {
        (**self).well_formed()
    }

    fn points(&self) -> (r: &Vec<M::Point>) {
        (**self).points()
    }
}

impl<'a, M: GetVertex> GetVertex for &'a M {
    type Vertex = M::Vertex;

    open spec fn spec_vertices(&self) -> Seq<M::Vertex> {
        (**self).spec_vertices()
    }

    proof fn lemma_vertex_count(&self) {
        (**self).lemma_vertex_count();
    }

    fn get_vertex(&self, index: usize) -> (r: Option<M::Vertex>) {
        (**self).get_vertex(index)
    }
}

impl<'a, M: Indices> Indices for &'a M {
    open spec fn spec_indices(&self) -> Seq<u32> {
        (**self).spec_indices()
    }

    fn indices(&self) -> (r: &Vec<u32>) {
        (**self).indices()
    }
}

impl<'a, M: Colors> Colors for &'a M {
    type Color = M::Color;

    open spec fn spec_colors(&self) -> Seq<M::Color> {
        (**self).spec_colors()
    }

    proof fn lemma_color_count(&self) {
        (**self).lemma_color_count();
    }

    fn colors(&self) -> (r: &Vec<M::Color>) {
        (**self).colors()
    }
}

impl<'a, M: TexCoords> TexCoords for &'a M {
    type TexCoord = M::TexCoord;

    open spec fn spec_tex_coords(&self) -> Seq<M::TexCoord> {
        (**self).spec_tex_coords()
    }

    proof fn lemma_tex_coord_count(&self) {
        (**self).lemma_tex_coord_count();
    }

    fn tex_coords(&self) -> (r: &Vec<M::TexCoord>) {
        (**self).tex_coords()
    }
}

impl<'a, M: Normals> Normals for &'a M {
    type Normal = M::Normal;

    open spec fn spec_normals(&self) -> Seq<M::Normal> {
        (**self).spec_normals()
    }

    proof fn lemma_normal_count(&self) {
        (**self).lemma_normal_count();
    }

    fn normals(&self) -> (r: &Vec<M::Normal>) {
        (**self).normals()
    }
}

impl<P> Default for MeshPoints<P> {
    /// A mesh with no points.
    fn default() -> (r: Self)
        ensures
            r.spec_points().len() == 0,
    {
        MeshPoints { points: Vec::new() }
    }
}

} // verus!
