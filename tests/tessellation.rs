use lyon::math::point;
use lyon::path::PathEvent;
use lyon::tessellation::geometry_builder::{FillGeometryBuilder, GeometryBuilder, StrokeGeometryBuilder};
use lyon::tessellation::{
    FillOptions, FillTessellator, FillVertex, GeometryBuilderError, StrokeOptions,
    StrokeTessellator, StrokeVertex, VertexId,
};
use splatter::draw_mesh::{self, ColorPerPoint, Mesh, MeshBuilder, SingleColor};
use splatter::events::Event;
use splatter::mesh::{Colors, Indices, Points};
use splatter::path::{Options, PathBuffers, PathInit, Tessellation, Theme};

type Point2 = [f32; 2];
type Point3 = [f32; 3];
type C = [f32; 4];
type T = [f32; 2];
type DrawMesh = Mesh<Point3, C, T>;

const ORANGE: C = [1.0, 0.5, 0.0, 1.0];
const THEME: Theme<C> = Theme { fill: [0.0, 0.0, 0.0, 1.0], stroke: [0.5, 0.5, 0.5, 1.0] };
const NO_TEX: T = [0.0, 0.0];

struct Glue<'a, A> {
    mesh: &'a mut DrawMesh,
    builder: MeshBuilder<A>,
}

impl<'a, A> GeometryBuilder for Glue<'a, A> {
    fn begin_geometry(&mut self) {
        self.builder.begin_geometry(self.mesh);
    }
    fn add_triangle(&mut self, a: VertexId, b: VertexId, c: VertexId) {
        self.builder.add_triangle(self.mesh, a.0, b.0, c.0);
    }
    fn abort_geometry(&mut self) {
        self.builder.end_geometry(self.mesh, false);
    }
}

impl<'a> FillGeometryBuilder for Glue<'a, SingleColor<C, T>> {
    fn add_fill_vertex(&mut self, v: FillVertex) -> Result<VertexId, GeometryBuilderError> {
        let p = v.position();
        self.builder.add_vertex(self.mesh, [p.x, p.y, 0.0]).map(VertexId).map_err(|_| GeometryBuilderError::TooManyVertices)
    }
}

impl<'a> StrokeGeometryBuilder for Glue<'a, SingleColor<C, T>> {
    fn add_stroke_vertex(&mut self, v: StrokeVertex) -> Result<VertexId, GeometryBuilderError> {
        let p = v.position();
        self.builder.add_vertex(self.mesh, [p.x, p.y, 0.0]).map(VertexId).map_err(|_| GeometryBuilderError::TooManyVertices)
    }
}

impl<'a> FillGeometryBuilder for Glue<'a, ColorPerPoint<T>> {
    fn add_fill_vertex(&mut self, mut v: FillVertex) -> Result<VertexId, GeometryBuilderError> {
        let p = v.position();
        let a = v.interpolated_attributes();
        let color = [a[0], a[1], a[2], a[3]];
        self.builder.add_vertex(self.mesh, [p.x, p.y, 0.0], color).map(VertexId).map_err(|_| GeometryBuilderError::TooManyVertices)
    }
}

fn lyon_event(e: &Event<Point2>) -> PathEvent {
    let lp = |p: Point2| point(p[0], p[1]);
    match *e {
        Event::Begin { at } => PathEvent::Begin { at: lp(at) },
        Event::Line { from, to } => PathEvent::Line { from: lp(from), to: lp(to) },
        Event::Quadratic { from, ctrl, to } => PathEvent::Quadratic { from: lp(from), ctrl: lp(ctrl), to: lp(to) },
        Event::Cubic { from, ctrl1, ctrl2, to } => PathEvent::Cubic { from: lp(from), ctrl1: lp(ctrl1), ctrl2: lp(ctrl2), to: lp(to) },
        Event::End { last, first, close } => PathEvent::End { last: lp(last), first: lp(first), close },
    }
}

/// Render a plain event primitive into `mesh` through lyon.
fn render_events(options: Options, events: Vec<Event<Point2>>, color: C, mesh: &mut DrawMesh) {
    let mut glue = Glue { mesh, builder: MeshBuilder::single_color(color, NO_TEX) };
    let lyon_events: Vec<PathEvent> = events.iter().map(lyon_event).collect();
    let res = match options {
        Options::Fill(o) => FillTessellator::new().tessellate(lyon_events, &o, &mut glue),
        Options::Stroke(o) => StrokeTessellator::new().tessellate(lyon_events, &o, &mut glue),
    };
    res.expect("tessellation succeeds");
}

fn render_polygon(points: &[Point2], color: Option<C>, fill: bool, mesh: &mut DrawMesh) {
    let mut buffers = PathBuffers::<Point2, C, T>::new();
    let path = if fill {
        let mut o = PathInit.fill::<C, ()>();
        o.color = color;
        o.points_closed::<Point2, T, ()>(&mut buffers, points)
    } else {
        let mut o = PathInit.stroke::<C, ()>();
        o.opts = o.opts.with_line_width(8.0);
        o.color = color;
        o.points::<Point2, T, ()>(&mut buffers, points)
    };
    let job = path.render_primitive(&buffers, &THEME);
    match job.tessellation {
        Tessellation::Events { events, color } => render_events(job.options, events, color, mesh),
        _ => panic!("expected events"),
    }
}

fn triangle_area_sum(mesh: &DrawMesh) -> f32 {
    let pts = mesh.points();
    mesh.indices()
        .chunks(3)
        .map(|t| {
            let (a, b, c) = (pts[t[0] as usize], pts[t[1] as usize], pts[t[2] as usize]);
            ((b[0] - a[0]) * (c[1] - a[1]) - (c[0] - a[0]) * (b[1] - a[1])).abs() / 2.0
        })
        .sum()
}

#[test]
fn filled_triangle_gets_the_fixed_color() {
    let mut mesh = draw_mesh::new_mesh::<Point3, C, T>();
    render_polygon(&[[0.0, 0.0], [10.0, 0.0], [10.0, 10.0]], Some(ORANGE), true, &mut mesh);
    assert!(mesh.indices().len() / 3 >= 1);
    assert!(!mesh.colors().is_empty());
    assert!(mesh.colors().iter().all(|c| *c == ORANGE));
}

#[test]
fn closed_path_fills_the_triangle_area() {
    let mut mesh = draw_mesh::new_mesh::<Point3, C, T>();
    render_polygon(&[[0.0, 0.0], [10.0, 0.0], [10.0, 10.0]], None, true, &mut mesh);
    let area = triangle_area_sum(&mesh);
    assert!((area - 50.0).abs() < 0.5, "area {}", area);
    assert!(mesh.colors().iter().all(|c| *c == THEME.fill));
}

#[test]
fn stroked_segment_spans_half_the_weight() {
    let mut mesh = draw_mesh::new_mesh::<Point3, C, T>();
    render_polygon(&[[0.0, 0.0], [10.0, 0.0]], Some(ORANGE), false, &mut mesh);
    assert!(!mesh.points().is_empty());
    assert!(!mesh.indices().is_empty());
    let xs: Vec<f32> = mesh.points().iter().map(|p| p[0]).collect();
    let ys: Vec<f32> = mesh.points().iter().map(|p| p[1]).collect();
    let min = |v: &[f32]| v.iter().cloned().fold(f32::INFINITY, f32::min);
    let max = |v: &[f32]| v.iter().cloned().fold(f32::NEG_INFINITY, f32::max);
    assert!((min(&xs) - 0.0).abs() < 1e-3 && (max(&xs) - 10.0).abs() < 1e-3);
    assert!((min(&ys) + 4.0).abs() < 1e-3 && (max(&ys) - 4.0).abs() < 1e-3);
}

#[test]
fn empty_point_list_adds_nothing() {
    let mut mesh = draw_mesh::new_mesh::<Point3, C, T>();
    let mut buffers = PathBuffers::<Point2, C, T>::new();
    let path = PathInit.fill::<C, ()>().points::<Point2, T, ()>(&mut buffers, &[]);
    let job = path.render_primitive(&buffers, &THEME);
    match job.tessellation {
        Tessellation::Events { events, color } => {
            assert!(events.is_empty());
            render_events(job.options, events, color, &mut mesh);
        }
        _ => panic!("expected events"),
    }
    assert_eq!(mesh.points().len(), 0);
    assert_eq!(mesh.indices().len(), 0);
    let colored = PathInit.fill::<C, ()>().points_colored::<Point2, T, ()>(&mut buffers, &[]);
    assert!(matches!(colored.render_primitive(&buffers, &THEME).tessellation, Tessellation::Nothing));
}

fn tessellate_colored(points: &[(Point2, C)], mesh: &mut DrawMesh) {
    let (first, rest) = points.split_first().unwrap();
    let mut b = lyon::path::Path::builder_with_attributes(4);
    b.begin(point(first.0[0], first.0[1]), &first.1);
    for (p, c) in rest {
        b.line_to(point(p[0], p[1]), c);
    }
    b.end(true);
    let path = b.build();
    let mut glue = Glue { mesh, builder: MeshBuilder::color_per_point(NO_TEX) };
    FillTessellator::new()
        .tessellate_with_ids(path.id_iter(), &path, Some(&path), &FillOptions::default(), &mut glue)
        .expect("tessellation succeeds");
}

#[test]
fn interpolated_colors_match_at_source_points() {
    let source: Vec<(Point2, C)> = vec![
        ([0.0, 0.0], [1.0, 0.0, 0.0, 1.0]),
        ([10.0, 0.0], [0.0, 1.0, 0.0, 1.0]),
        ([10.0, 10.0], [0.0, 0.0, 1.0, 0.5]),
    ];
    let mut mesh = draw_mesh::new_mesh::<Point3, C, T>();
    tessellate_colored(&source, &mut mesh);
    let mut matched = 0;
    for (p, c) in mesh.points().iter().zip(mesh.colors().iter()) {
        for (sp, sc) in &source {
            if p[0] == sp[0] && p[1] == sp[1] {
                matched += 1;
                for k in 0..4 {
                    assert!((c[k] - sc[k]).abs() <= 1e-5);
                }
            }
        }
    }
    assert!(matched >= 3);
}

#[test]
fn tessellating_twice_gives_identical_meshes() {
    let run = || {
        let mut mesh = draw_mesh::new_mesh::<Point3, C, T>();
        render_polygon(&[[0.0, 0.0], [7.0, 1.0], [3.0, 9.0], [-2.0, 4.0]], Some(ORANGE), true, &mut mesh);
        render_polygon(&[[0.0, 0.0], [10.0, 0.0], [5.0, 3.0]], Some(ORANGE), false, &mut mesh);
        mesh
    };
    let (a, b) = (run(), run());
    let bits = |m: &DrawMesh| -> Vec<u32> { m.points().iter().flat_map(|p| p.iter().map(|x| x.to_bits())).collect() };
    assert_eq!(bits(&a), bits(&b));
    assert_eq!(a.indices(), b.indices());
    assert_eq!(a.colors(), b.colors());
}

#[test]
fn failed_stroke_leaves_earlier_geometry() {
    let mut mesh = draw_mesh::new_mesh::<Point3, C, T>();
    render_polygon(&[[0.0, 0.0], [10.0, 0.0], [10.0, 10.0]], Some(ORANGE), true, &mut mesh);
    let before = (mesh.points().clone(), mesh.indices().clone());
    let mut b = MeshBuilder::single_color(ORANGE, NO_TEX);
    b.begin_geometry(&mesh);
    b.add_vertex(&mut mesh, [1.0, 1.0, 0.0]).unwrap();
    b.add_triangle(&mut mesh, 0, 1, 2);
    b.end_geometry(&mut mesh, false);
    assert_eq!((mesh.points().clone(), mesh.indices().clone()), before);
    let _ = StrokeOptions::default();
}
