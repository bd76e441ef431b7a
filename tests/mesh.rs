use splatter::mesh::{
    self, ClearIndices, ClearVertices, Colors, ExtendFromSlice, GetVertex, Indices, Normals,
    Points, PushIndex, PushVertex, TexCoords, TruncateIndices, TruncateVertices,
};
use splatter::vertex::{WithColor, WithNormal, WithTexCoords};

type P = [f32; 2];
type C = [f32; 4];
type T = [f32; 2];

const RED: C = [1.0, 0.0, 0.0, 1.0];
const BLUE: C = [0.0, 0.0, 1.0, 1.0];

fn vertex(p: P, c: C, t: T) -> WithTexCoords<WithColor<P, C>, T> {
    WithTexCoords { vertex: WithColor { vertex: p, color: c }, tex_coords: t }
}

fn empty_mesh() -> mesh::WithIndices<mesh::WithTexCoords<mesh::WithColors<mesh::MeshPoints<P>, C>, T>> {
    let points = mesh::from_points(Vec::<P>::new());
    let colored = mesh::with_colors(points, Vec::<C>::new());
    let textured = mesh::with_tex_coords(colored, Vec::<T>::new());
    mesh::with_indices(textured, Vec::new())
}

#[test]
fn pushed_vertices_keep_channels_in_step() {
    let mut m = empty_mesh();
    for i in 0..5 {
        let f = i as f32;
        mesh::push_vertex(&mut m, vertex([f, -f], RED, [f / 10.0, 0.0]));
        assert_eq!(m.points().len(), i + 1);
        assert_eq!(m.colors().len(), m.points().len());
        assert_eq!(m.tex_coords().len(), m.points().len());
    }
    assert_eq!(mesh::raw_vertex_count(&m), 5);
    assert_eq!(mesh::vertex_count(&m), 0);
}

#[test]
fn get_vertex_returns_every_channel() {
    let mut m = empty_mesh();
    m.push_vertex(vertex([1.0, 2.0], RED, [0.25, 0.5]));
    m.push_vertex(vertex([3.0, 4.0], BLUE, [0.75, 1.0]));
    assert_eq!(m.get_vertex(1), Some(vertex([3.0, 4.0], BLUE, [0.75, 1.0])));
    assert_eq!(m.get_vertex(0), Some(vertex([1.0, 2.0], RED, [0.25, 0.5])));
    assert_eq!(m.get_vertex(2), None);
}

#[test]
fn normals_channel_travels_with_its_vertex() {
    let points = mesh::from_points(vec![[0.0f32, 0.0, 0.0]]);
    let mut m = mesh::with_normals(points, vec![[0.0f32, 0.0, 1.0]]);
    m.push_vertex(WithNormal { vertex: [1.0, 0.0, 0.0], normal: [0.0, 1.0, 0.0] });
    assert_eq!(m.normals().len(), 2);
    assert_eq!(m.get_vertex(1), Some(WithNormal { vertex: [1.0, 0.0, 0.0], normal: [0.0, 1.0, 0.0] }));
}

#[test]
fn indices_and_triangles() {
    let mut m = empty_mesh();
    mesh::extend_vertices(
        &mut m,
        vec![
            vertex([0.0, 0.0], RED, [0.0, 0.0]),
            vertex([1.0, 0.0], RED, [1.0, 0.0]),
            vertex([1.0, 1.0], BLUE, [1.0, 1.0]),
            vertex([0.0, 1.0], BLUE, [0.0, 1.0]),
        ],
    );
    mesh::extend_indices(&mut m, &[0, 1, 2, 0, 2, 3, 1]);
    mesh::push_index(&mut m, 3);
    assert_eq!(m.indices(), &vec![0, 1, 2, 0, 2, 3, 1, 3]);
    assert_eq!(mesh::vertex_count(&m), 8);
    assert_eq!(mesh::triangle_count(&m), 2);
    let tris = mesh::triangles(&m);
    assert_eq!(tris.len(), 2);
    assert_eq!(tris[1].0, vertex([0.0, 0.0], RED, [0.0, 0.0]));
    assert_eq!(tris[1].1, vertex([1.0, 1.0], BLUE, [1.0, 1.0]));
    assert_eq!(tris[1].2, vertex([0.0, 1.0], BLUE, [0.0, 1.0]));
}

#[test]
fn vertices_iterator_follows_the_index_channel() {
    let mut m = empty_mesh();
    m.extend_from_slice(&[vertex([0.0, 0.0], RED, [0.0, 0.0]), vertex([5.0, 5.0], BLUE, [1.0, 1.0])]);
    m.extend_indices(&[1, 0, 1]);
    let mut it = mesh::vertices(&m);
    assert_eq!(it.len(), 3);
    assert_eq!(it.next().map(|v| v.vertex.vertex), Some([5.0, 5.0]));
    assert_eq!(it.next_back().map(|v| v.vertex.vertex), Some([5.0, 5.0]));
    assert_eq!(it.next().map(|v| v.vertex.vertex), Some([0.0, 0.0]));
    assert_eq!(it.next(), None);
    let mut ranged = mesh::vertices(&m).index_range(1, 10);
    assert_eq!(ranged.len(), 2);
    assert_eq!(ranged.next().map(|v| v.vertex.color), Some(RED));
}

#[test]
fn raw_vertices_iterator_walks_positions() {
    let m = mesh::from_points(vec![[0.0f32, 0.0], [1.0, 1.0], [2.0, 2.0]]);
    let mut it = mesh::raw_vertices(&m).range(1, 5);
    assert_eq!(it.len(), 4);
    assert_eq!(it.next(), Some([1.0, 1.0]));
    assert_eq!(it.next(), Some([2.0, 2.0]));
    assert_eq!(it.next(), None);
    assert_eq!(it.len(), 1);
}

#[test]
fn clearing_empties_the_channels() {
    let mut m = empty_mesh();
    m.push_vertex(vertex([0.0, 0.0], RED, [0.0, 0.0]));
    m.push_index(0);
    m.clear_indices();
    assert_eq!(m.indices().len(), 0);
    assert_eq!(m.points().len(), 1);
    m.push_index(0);
    m.clear_vertices();
    assert_eq!(m.points().len(), 0);
    assert_eq!(m.colors().len(), 0);
    assert_eq!(m.tex_coords().len(), 0);
    assert_eq!(m.indices().len(), 0);
    m.push_vertex(vertex([0.0, 0.0], RED, [0.0, 0.0]));
    m.push_index(0);
    mesh::clear(&mut m);
    assert_eq!(mesh::raw_vertex_count(&m), 0);
    assert_eq!(mesh::vertex_count(&m), 0);
}

#[test]
fn truncation_cuts_every_channel() {
    let mut m = empty_mesh();
    for i in 0..4 {
        m.push_vertex(vertex([i as f32, 0.0], RED, [0.0, 0.0]));
    }
    m.extend_indices(&[0, 1, 2, 1, 2, 3]);
    m.truncate_vertices(2);
    m.truncate_indices(3);
    assert_eq!(m.points().len(), 2);
    assert_eq!(m.colors().len(), 2);
    assert_eq!(m.tex_coords().len(), 2);
    assert_eq!(m.indices(), &vec![0, 1, 2]);
    m.truncate_vertices(10);
    assert_eq!(m.points().len(), 2);
}
