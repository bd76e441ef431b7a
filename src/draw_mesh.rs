//! The mesh that a frame's drawing is tessellated into, and the builder that a tessellator
//! drives to extend it.
//!
//! Every vertex of the drawing mesh carries a point, a color and texture coordinates. A
//! `MeshBuilder` adds the vertices and triangles that a tessellator emits for one primitive,
//! sourcing each vertex's color and texture coordinates by one of three strategies:
//! `SingleColor` (one fixed color for the whole primitive), `ColorPerPoint` (the color that the
//! tessellator interpolated between the source points) and `TexCoordsPerPoint` (the texture
//! coordinates that it interpolated). Positions arrive already transformed into the frame's space.

use crate::mesh::{
    GetVertex, Indices, MeshPoints, Points, PushIndex, PushVertex, TruncateIndices,
    TruncateVertices, WithColors, WithIndices, WithTexCoords, from_points, with_colors,
    with_indices, with_tex_coords,
};
use crate::vertex::WithColor;
use vstd::prelude::*;

verus! {

/// The vertex type of the drawing mesh.
pub type Vertex<P, C, T> = crate::vertex::WithTexCoords<WithColor<P, C>, T>;

/// The drawing mesh: points, colors, texture coordinates and triangle indices.
pub type Mesh<P, C, T> = WithIndices<WithTexCoords<WithColors<MeshPoints<P>, C>, T>>;

/// The vertex made of `point`, `color` and `tex_coords`.
pub open spec fn vertex_of<P, C, T>(point: P, color: C, tex_coords: T) -> Vertex<P, C, T> {
    crate::vertex::WithTexCoords { vertex: WithColor { vertex: point, color }, tex_coords }
}

/// Build a drawing-mesh vertex.
pub fn new<P, C, T>(point: P, color: C, tex_coords: T) -> (r: Vertex<P, C, T>)
    ensures
        r == vertex_of(point, color, tex_coords),
{
    crate::vertex::WithTexCoords { vertex: WithColor { vertex: point, color }, tex_coords }
}

/// An empty drawing mesh.
pub fn new_mesh<P: Copy, C: Copy, T: Copy>() -> (r: Mesh<P, C, T>)
    ensures
        r.well_formed(),
        r.spec_vertices().len() == 0,
        r.spec_indices().len() == 0,
{
    let points = from_points(Vec::new());
    let colored = with_colors(points, Vec::new());
    let textured = with_tex_coords(colored, Vec::new());
    let r = with_indices(textured, Vec::new());
    proof {
        r.lemma_vertex_count();
    }
    r
}

/// Turns a sequence of colored points into drawing-mesh vertices, all with the same texture
/// coordinates.
#[derive(Clone, Debug)]
pub struct IterFromColoredPoints<P, C, T> {
    colored_points: Vec<WithColor<P, C>>,
    pos: usize,
    tex_coords: T,
}

/// Turns a sequence of points into drawing-mesh vertices, all with the same color and texture
/// coordinates.
#[derive(Clone, Debug)]
pub struct IterFromPoints<P, C, T> {
    points: Vec<P>,
    pos: usize,
    default_color: C,
    tex_coords: T,
}

impl<P: Copy, C: Copy, T: Copy> IterFromColoredPoints<P, C, T> {
    /// The vertices still to be yielded, in order.
    pub closed spec fn remaining(&self) -> Seq<Vertex<P, C, T>> {
        if self.pos < self.colored_points@.len() {
            self.colored_points@.subrange(self.pos as int, self.colored_points@.len() as int).map_values(
                |p: WithColor<P, C>| vertex_of(p.vertex, p.color, self.tex_coords),
            )
        } else {
            Seq::empty()
        }
    }

    /// Yield every colored point as a vertex with the texture coordinates `tex_coords`.
    pub fn new(colored_points: Vec<WithColor<P, C>>, tex_coords: T) -> (r: Self)
        ensures
            r.remaining() == colored_points@.map_values(
                |p: WithColor<P, C>| vertex_of(p.vertex, p.color, tex_coords),
            ),
    {
        let r = IterFromColoredPoints { colored_points, pos: 0, tex_coords };
        proof {
            assert(r.colored_points@.subrange(0, r.colored_points@.len() as int) =~= r.colored_points@);
            assert(r.remaining() =~= colored_points@.map_values(
                |p: WithColor<P, C>| vertex_of(p.vertex, p.color, tex_coords),
            ));
        }
        r
    }

    /// Yield the next vertex, or `None` once every point has been yielded.
    pub fn next(&mut self) -> (r: Option<Vertex<P, C, T>>)
        ensures
            old(self).remaining().len() == 0 ==> r is None && final(self).remaining() == old(self).remaining(),
            old(self).remaining().len() > 0 ==> r == Some(old(self).remaining()[0])
                && final(self).remaining() == old(self).remaining().drop_first(),
    {
        if self.pos < self.colored_points.len() {
            let p = self.colored_points[self.pos];
            self.pos = self.pos + 1;
            proof {
                assert(old(self).remaining()[0] == vertex_of(p.vertex, p.color, self.tex_coords));
                assert(self.remaining() =~= old(self).remaining().drop_first());
            }
            Some(new(p.vertex, p.color, self.tex_coords))
        } else {
            None
        }
    }
}

impl<P: Copy, C: Copy, T: Copy> IterFromPoints<P, C, T> {
    /// The vertices still to be yielded, in order.
    pub closed spec fn remaining(&self) -> Seq<Vertex<P, C, T>> {
        if self.pos < self.points@.len() {
            self.points@.subrange(self.pos as int, self.points@.len() as int).map_values(
                |p: P| vertex_of(p, self.default_color, self.tex_coords),
            )
        } else {
            Seq::empty()
        }
    }

    /// Yield every point as a vertex with the color `default_color` and the texture coordinates
    /// `tex_coords`.
    pub fn new(points: Vec<P>, default_color: C, tex_coords: T) -> (r: Self)
        ensures
            r.remaining() == points@.map_values(|p: P| vertex_of(p, default_color, tex_coords)),
    {
        let r = IterFromPoints { points, pos: 0, default_color, tex_coords };
        proof {
            assert(r.points@.subrange(0, r.points@.len() as int) =~= r.points@);
            assert(r.remaining() =~= points@.map_values(|p: P| vertex_of(p, default_color, tex_coords)));
        }
        r
    }

    /// Yield the next vertex, or `None` once every point has been yielded.
    pub fn next(&mut self) -> (r: Option<Vertex<P, C, T>>)
        ensures
            old(self).remaining().len() == 0 ==> r is None && final(self).remaining() == old(self).remaining(),
            old(self).remaining().len() > 0 ==> r == Some(old(self).remaining()[0])
                && final(self).remaining() == old(self).remaining().drop_first(),
    {
        if self.pos < self.points.len() {
            let p = self.points[self.pos];
            self.pos = self.pos + 1;
            proof {
                assert(old(self).remaining()[0] == vertex_of(p, self.default_color, self.tex_coords));
                assert(self.remaining() =~= old(self).remaining().drop_first());
            }
            Some(new(p, self.default_color, self.tex_coords))
        } else {
            None
        }
    }
}

/// Turns a sequence of 2D points into drawing-mesh vertices at the depth `z`, all with the same
/// color and texture coordinates.
#[derive(Clone, Debug)]
pub struct IterFromPoint2s<X, C, T> {
    points: Vec<[X; 2]>,
    pos: usize,
    z: X,
    default_color: C,
    tex_coords: T,
}

/// The 3D point at depth `z` above the 2D point `p`.
pub open spec fn lift<X>(p: [X; 2], z: X) -> [X; 3] {
    [p[0], p[1], z]
}

impl<X: Copy, C: Copy, T: Copy> IterFromPoint2s<X, C, T> {
    /// The vertices still to be yielded, in order.
    pub closed spec fn remaining(&self) -> Seq<Vertex<[X; 3], C, T>> {
        if self.pos < self.points@.len() {
            self.points@.subrange(self.pos as int, self.points@.len() as int).map_values(
                |p: [X; 2]| vertex_of(lift(p, self.z), self.default_color, self.tex_coords),
            )
        } else {
            Seq::empty()
        }
    }

    /// Yield every point, lifted to the depth `z`, as a vertex with the color `default_color` and
    /// the texture coordinates `tex_coords`.
    pub fn new(points: Vec<[X; 2]>, z: X, default_color: C, tex_coords: T) -> (r: Self)
        ensures
            r.remaining() == points@.map_values(
                |p: [X; 2]| vertex_of(lift(p, z), default_color, tex_coords),
            ),
    {
        let r = IterFromPoint2s { points, pos: 0, z, default_color, tex_coords };
        proof {
            assert(r.points@.subrange(0, r.points@.len() as int) =~= r.points@);
            assert(r.remaining() =~= points@.map_values(
                |p: [X; 2]| vertex_of(lift(p, z), default_color, tex_coords),
            ));
        }
        r
    }

    /// Yield the next vertex, or `None` once every point has been yielded.
    pub fn next(&mut self) -> (r: Option<Vertex<[X; 3], C, T>>)
        ensures
            old(self).remaining().len() == 0 ==> r is None && final(self).remaining() == old(self).remaining(),
            old(self).remaining().len() > 0 ==> r == Some(old(self).remaining()[0])
                && final(self).remaining() == old(self).remaining().drop_first(),
    {
        if self.pos < self.points.len() {
            let p = self.points[self.pos];
            self.pos = self.pos + 1;
            let point = [p[0], p[1], self.z];
            proof {
                assert(point == lift(p, self.z));
                assert(old(self).remaining()[0] == vertex_of(lift(p, self.z), self.default_color, self.tex_coords));
                assert(self.remaining() =~= old(self).remaining().drop_first());
            }
            Some(new(point, self.default_color, self.tex_coords))
        } else {
            None
        }
    }
}

/// Every vertex gets the same color and texture coordinates.
#[derive(Clone, Copy, Debug, PartialEq)]
pub struct SingleColor<C, T> {
    pub color: C,
    pub tex_coords: T,
}

/// Every vertex gets the color interpolated by the tessellator and the same texture coordinates.
#[derive(Clone, Copy, Debug, PartialEq)]
pub struct ColorPerPoint<T> {
    pub tex_coords: T,
}

/// Every vertex gets the texture coordinates interpolated by the tessellator and the same color.
#[derive(Clone, Copy, Debug, PartialEq)]
pub struct TexCoordsPerPoint<C> {
    pub color: C,
}

/// Why a builder could not add a vertex.
#[derive(Clone, Copy, Debug, PartialEq, Eq)]
pub enum BuilderError {
    /// The mesh already holds as many vertices as a 32-bit vertex id can name.
    TooManyVertices,
}

/// The largest number of vertices that a mesh may hold: ids are 32 bits wide, and the largest
/// value is reserved as an invalid id.
pub const MAX_VERTICES: usize = 0xffff_ffff;

/// Extends a drawing mesh with the vertices and triangles of one primitive.
pub struct MeshBuilder<A> {
    /// The number of vertices in the mesh when `begin_geometry` was called.
    begin_vertex_count: usize,
    /// The number of indices in the mesh when `begin_geometry` was called.
    begin_index_count: usize,
    /// The way in which vertex attributes are sourced.
    attributes: A,
}

/// Push one vertex and return its id, which is its position in the mesh.
fn push_draw_vertex<P: Copy, C: Copy, T: Copy>(mesh: &mut Mesh<P, C, T>, point: P, color: C, tex_coords: T) -> (r: Result<u32, BuilderError>)
    requires
        old(mesh).well_formed(),
    ensures
        final(mesh).well_formed(),
        final(mesh).spec_indices() == old(mesh).spec_indices(),
        old(mesh).spec_vertices().len() < MAX_VERTICES ==> r == Ok::<u32, BuilderError>(
            old(mesh).spec_vertices().len() as u32,
        ) && final(mesh).spec_vertices() == old(mesh).spec_vertices().push(
            vertex_of(point, color, tex_coords),
        ),
        old(mesh).spec_vertices().len() >= MAX_VERTICES ==> r == Err::<u32, BuilderError>(
            BuilderError::TooManyVertices,
        ) && *final(mesh) == *old(mesh),
{
    proof {
        mesh.lemma_vertex_count();
    }
    let len = mesh.points().len();
    if len >= MAX_VERTICES {
        return Err(BuilderError::TooManyVertices);
    }
    mesh.push_vertex(new(point, color, tex_coords));
    Ok(len as u32)
}

impl<A> MeshBuilder<A> {
    /// The number of vertices in the mesh when the current primitive began.
    pub closed spec fn begin_vertex_count(&self) -> nat {
        self.begin_vertex_count as nat
    }

    /// The number of indices in the mesh when the current primitive began.
    pub closed spec fn begin_index_count(&self) -> nat {
        self.begin_index_count as nat
    }

    /// The attribute-sourcing strategy.
    pub closed spec fn attributes(&self) -> A {
        self.attributes
    }

    fn new(attributes: A) -> (r: Self)
        ensures
            r.attributes() == attributes,
            r.begin_vertex_count() == 0,
            r.begin_index_count() == 0,
    {
        MeshBuilder { begin_vertex_count: 0, begin_index_count: 0, attributes }
    }

    /// Record where the mesh stands before the primitive's geometry is added.
    pub fn begin_geometry<P: Copy, C: Copy, T: Copy>(&mut self, mesh: &Mesh<P, C, T>)
        requires
            mesh.well_formed(),
        ensures
            final(self).attributes() == old(self).attributes(),
            final(self).begin_vertex_count() == mesh.spec_vertices().len(),
            final(self).begin_index_count() == mesh.spec_indices().len(),
    {
        proof {
            mesh.lemma_vertex_count();
        }
        self.begin_vertex_count = mesh.points().len();
        self.begin_index_count = mesh.indices().len();
    }

    /// Add a triangle between three vertices, by their ids.
    pub fn add_triangle<P: Copy, C: Copy, T: Copy>(&self, mesh: &mut Mesh<P, C, T>, a: u32, b: u32, c: u32)
        requires
            old(mesh).well_formed(),
        ensures
            final(mesh).well_formed(),
            final(mesh).spec_indices() == old(mesh).spec_indices().push(a).push(b).push(c),
            final(mesh).spec_vertices() == old(mesh).spec_vertices(),
    {
        mesh.push_index(a);
        mesh.push_index(b);
        mesh.push_index(c);
    }

    /// Finish the primitive. When the tessellation failed, everything added to the mesh since
    /// `begin_geometry` is discarded, so a failed primitive contributes no geometry.
    pub fn end_geometry<P: Copy, C: Copy, T: Copy>(&self, mesh: &mut Mesh<P, C, T>, succeeded: bool)
        requires
            old(mesh).well_formed(),
        ensures
            final(mesh).well_formed(),
            succeeded ==> *final(mesh) == *old(mesh),
            !succeeded ==> final(mesh).spec_vertices() == old(mesh).spec_vertices().subrange(
                0,
                vstd::math::min(self.begin_vertex_count() as int, old(mesh).spec_vertices().len() as int),
            ) && final(mesh).spec_indices() == old(mesh).spec_indices().subrange(
                0,
                vstd::math::min(self.begin_index_count() as int, old(mesh).spec_indices().len() as int),
            ),
    {
        if !succeeded {
            mesh.truncate_vertices(self.begin_vertex_count);
            mesh.truncate_indices(self.begin_index_count);
            proof {
                if self.begin_vertex_count > old(mesh).spec_vertices().len() {
                    assert(old(mesh).spec_vertices().subrange(0, old(mesh).spec_vertices().len() as int)
                        =~= old(mesh).spec_vertices());
                }
                if self.begin_index_count > old(mesh).spec_indices().len() {
                    assert(old(mesh).spec_indices().subrange(0, old(mesh).spec_indices().len() as int)
                        =~= old(mesh).spec_indices());
                }
            }
        }
    }
}

impl<C: Copy, T: Copy> MeshBuilder<SingleColor<C, T>> {
    /// Begin extending a mesh rendered with the single color `color`; every vertex also gets the
    /// texture coordinates `tex_coords`.
    pub fn single_color(color: C, tex_coords: T) -> (r: Self)
        ensures
            r.attributes() == (SingleColor { color, tex_coords }),
            r.begin_vertex_count() == 0,
            r.begin_index_count() == 0,
    {
        Self::new(SingleColor { color, tex_coords })
    }

    /// Add a vertex at `point` with the builder's color and texture coordinates, and return its
    /// id.
    pub fn add_vertex<P: Copy>(&self, mesh: &mut Mesh<P, C, T>, point: P) -> (r: Result<u32, BuilderError>)
        requires
            old(mesh).well_formed(),
        ensures
            final(mesh).well_formed(),
            final(mesh).spec_indices() == old(mesh).spec_indices(),
            old(mesh).spec_vertices().len() < MAX_VERTICES ==> r == Ok::<u32, BuilderError>(
                old(mesh).spec_vertices().len() as u32,
            ) && final(mesh).spec_vertices() == old(mesh).spec_vertices().push(
                vertex_of(point, self.attributes().color, self.attributes().tex_coords),
            ),
            old(mesh).spec_vertices().len() >= MAX_VERTICES ==> r == Err::<u32, BuilderError>(
                BuilderError::TooManyVertices,
            ) && *final(mesh) == *old(mesh),
    {
        push_draw_vertex(mesh, point, self.attributes.color, self.attributes.tex_coords)
    }
}

impl<T: Copy> MeshBuilder<ColorPerPoint<T>> {
    /// Begin extending a mesh whose path interpolates a color per point; every vertex gets the
    /// texture coordinates `tex_coords`.
    pub fn color_per_point(tex_coords: T) -> (r: Self)
        ensures
            r.attributes() == (ColorPerPoint { tex_coords }),
            r.begin_vertex_count() == 0,
            r.begin_index_count() == 0,
    {
        Self::new(ColorPerPoint { tex_coords })
    }

    /// Add a vertex at `point` with the interpolated color `color`, and return its id.
    pub fn add_vertex<P: Copy, C: Copy>(&self, mesh: &mut Mesh<P, C, T>, point: P, color: C) -> (r: Result<u32, BuilderError>)
        requires
            old(mesh).well_formed(),
        ensures
            final(mesh).well_formed(),
            final(mesh).spec_indices() == old(mesh).spec_indices(),
            old(mesh).spec_vertices().len() < MAX_VERTICES ==> r == Ok::<u32, BuilderError>(
                old(mesh).spec_vertices().len() as u32,
            ) && final(mesh).spec_vertices() == old(mesh).spec_vertices().push(
                vertex_of(point, color, self.attributes().tex_coords),
            ),
            old(mesh).spec_vertices().len() >= MAX_VERTICES ==> r == Err::<u32, BuilderError>(
                BuilderError::TooManyVertices,
            ) && *final(mesh) == *old(mesh),
    {
        push_draw_vertex(mesh, point, color, self.attributes.tex_coords)
    }
}

impl<C: Copy> MeshBuilder<TexCoordsPerPoint<C>> {
    /// Begin extending a mesh whose path interpolates texture coordinates per point; every vertex
    /// gets the color `color`.
    pub fn tex_coords_per_point(color: C) -> (r: Self)
        ensures
            r.attributes() == (TexCoordsPerPoint { color }),
            r.begin_vertex_count() == 0,
            r.begin_index_count() == 0,
    {
        Self::new(TexCoordsPerPoint { color })
    }

    /// Add a vertex at `point` with the interpolated texture coordinates `tex_coords`, and return
    /// its id.
    pub fn add_vertex<P: Copy, T: Copy>(&self, mesh: &mut Mesh<P, C, T>, point: P, tex_coords: T) -> (r: Result<u32, BuilderError>)
        requires
            old(mesh).well_formed(),
        ensures
            final(mesh).well_formed(),
            final(mesh).spec_indices() == old(mesh).spec_indices(),
            old(mesh).spec_vertices().len() < MAX_VERTICES ==> r == Ok::<u32, BuilderError>(
                old(mesh).spec_vertices().len() as u32,
            ) && final(mesh).spec_vertices() == old(mesh).spec_vertices().push(
                vertex_of(point, self.attributes().color, tex_coords),
            ),
            old(mesh).spec_vertices().len() >= MAX_VERTICES ==> r == Err::<u32, BuilderError>(
                BuilderError::TooManyVertices,
            ) && *final(mesh) == *old(mesh),
    {
        push_draw_vertex(mesh, point, self.attributes.color, tex_coords)
    }
}

} // verus!
