use splatter::events::Event;
use splatter::path::{
    points_to_events, resolve_color, Options, PathBuffers, PathEventSource, PathInit, PathOptions,
    Tessellation, TessellationOptions, Theme, VertexMode,
};

type P = [f32; 2];
type C = [f32; 4];
type T = [f32; 2];

const FILL: C = [0.1, 0.1, 0.1, 1.0];
const STROKE: C = [0.9, 0.9, 0.9, 1.0];
const RED: C = [1.0, 0.0, 0.0, 1.0];
const THEME: Theme<C> = Theme { fill: FILL, stroke: STROKE };

#[test]
fn polyline_events_open_and_closed() {
    let pts: [P; 3] = [[0.0, 0.0], [10.0, 0.0], [10.0, 10.0]];
    assert_eq!(
        points_to_events(&pts, true),
        vec![
            Event::Begin { at: [0.0, 0.0] },
            Event::Line { from: [0.0, 0.0], to: [10.0, 0.0] },
            Event::Line { from: [10.0, 0.0], to: [10.0, 10.0] },
            Event::End { last: [10.0, 10.0], first: [0.0, 0.0], close: true },
        ]
    );
    let open = points_to_events(&pts[..1], false);
    assert_eq!(open, vec![Event::Begin { at: [0.0, 0.0] }, Event::End { last: [0.0, 0.0], first: [0.0, 0.0], close: false }]);
    assert!(points_to_events::<P>(&[], true).is_empty());
}

#[test]
fn buffered_primitives_record_their_ranges() {
    let mut buffers = PathBuffers::<P, C, T>::new();
    let first = PathInit.fill::<C, ()>().points::<P, T, ()>(&mut buffers, &[[0.0, 0.0], [1.0, 1.0]]);
    assert_eq!(first.source, PathEventSource::Buffered { start: 0, end: 3 });
    let second = PathInit.stroke::<C, ()>().points_closed::<P, T, ()>(&mut buffers, &[[2.0, 2.0], [3.0, 3.0], [4.0, 2.0]]);
    assert_eq!(second.source, PathEventSource::Buffered { start: 3, end: 7 });
    let colored = PathInit.fill::<C, ()>().points_colored::<P, T, ()>(&mut buffers, &[([0.0, 0.0], RED)]);
    assert_eq!(colored.source, PathEventSource::ColoredPoints { start: 0, end: 1, close: false });
    assert_eq!(colored.vertex_mode, VertexMode::Color);
    let textured = PathInit.fill::<C, ()>().points_textured_closed(&mut buffers, "view", &[([0.0, 0.0], [0.5, 0.5]), ([1.0, 0.0], [1.0, 0.5])]);
    assert_eq!(textured.source, PathEventSource::TexturedPoints { start: 0, end: 2, close: true });
    assert_eq!(textured.vertex_mode, VertexMode::Texture);
    assert_eq!(textured.texture_view, Some("view"));
    assert!(textured.source.in_bounds(&buffers));
    buffers.clear();
    assert!(!textured.source.in_bounds(&buffers));
}

#[test]
fn event_paths_fall_back_to_the_theme_color() {
    let mut buffers = PathBuffers::<P, C, T>::new();
    let events = [Event::Begin { at: [0.0, 0.0] }, Event::End { last: [0.0, 0.0], first: [0.0, 0.0], close: false }];
    let filled = PathInit.fill::<C, ()>().events::<P, T, ()>(&mut buffers, &events);
    match filled.render_primitive(&buffers, &THEME).tessellation {
        Tessellation::Events { events: e, color } => {
            assert_eq!(e, events.to_vec());
            assert_eq!(color, FILL);
        }
        _ => panic!("expected events"),
    }
    let stroked = PathInit.stroke::<C, ()>().events::<P, T, ()>(&mut buffers, &events);
    match stroked.render_primitive(&buffers, &THEME).tessellation {
        Tessellation::Events { color, .. } => assert_eq!(color, STROKE),
        _ => panic!("expected events"),
    }
    let mut own = PathInit.stroke::<C, ()>();
    own.color = Some(RED);
    let own = own.events::<P, T, ()>(&mut buffers, &events);
    match own.render_primitive(&buffers, &THEME).tessellation {
        Tessellation::Events { color, .. } => assert_eq!(color, RED),
        _ => panic!("expected events"),
    }
    assert_eq!(resolve_color(None, &lyon::tessellation::FillOptions::default().into_options(), &THEME), FILL);
}

#[test]
fn empty_point_polylines_have_nothing_to_tessellate() {
    let mut buffers = PathBuffers::<P, C, T>::new();
    let colored = PathInit.fill::<C, ()>().points_colored::<P, T, ()>(&mut buffers, &[]);
    let job = colored.render_primitive(&buffers, &THEME);
    assert!(matches!(job.tessellation, Tessellation::Nothing));
    assert_eq!(job.render.vertex_mode, VertexMode::Color);
    let textured = PathInit.stroke::<C, ()>().points_textured(&mut buffers, 7u8, &[]);
    let job = textured.render_primitive(&buffers, &THEME);
    assert!(matches!(job.tessellation, Tessellation::Nothing));
    assert_eq!(job.render.texture_view, Some(7u8));
}

#[test]
fn resolved_points_are_the_buffered_range() {
    let mut buffers = PathBuffers::<P, C, T>::new();
    let _ = PathInit.fill::<C, ()>().points_colored::<P, T, ()>(&mut buffers, &[([9.0, 9.0], RED)]);
    let path = PathInit.fill::<C, ()>().points_colored_closed::<P, T, ()>(&mut buffers, &[([0.0, 0.0], RED), ([1.0, 0.0], FILL)]);
    match path.render_primitive(&buffers, &THEME).tessellation {
        Tessellation::ColoredPoints { points, close } => {
            assert_eq!(points, vec![([0.0, 0.0], RED), ([1.0, 0.0], FILL)]);
            assert!(close);
        }
        _ => panic!("expected colored points"),
    }
}

#[test]
fn options_keep_their_kind() {
    let o: PathOptions<lyon::tessellation::StrokeOptions, C, ()> = PathOptions::new(lyon::tessellation::StrokeOptions::default());
    assert!(o.color.is_none());
    assert!(matches!(o.opts.into_options(), Options::Stroke(_)));
}
