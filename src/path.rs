//! Path primitives: buffering drawing calls for a frame and resolving them at render time.
//!
//! A drawing call stores its events or points in the frame's `PathBuffers` and keeps only the
//! range it wrote, inside a `Path` primitive. When the frame is rendered, each primitive reads its
//! range back and says how it is to be tessellated: which events or points, which color for a
//! plain event stream, and which vertex mode and texture the renderer must use. The buffers are
//! cleared at the start of every frame, so a range is only meaningful within the frame that
//! recorded it.

use crate::events::Event;
use lyon::tessellation::{FillOptions, StrokeOptions};
use vstd::prelude::*;

verus! {

/// lyon's fill tessellation parameters, carried through unread.
#[verifier::external_type_specification]
#[verifier::external_body]
pub struct ExFillOptions(FillOptions);

/// lyon's stroke tessellation parameters, carried through unread.
#[verifier::external_type_specification]
#[verifier::external_body]
pub struct ExStrokeOptions(StrokeOptions);

/// Relies on lyon's `FillOptions::default`, which returns its default fill parameters.
pub assume_specification[ <FillOptions as core::default::Default>::default ]() -> FillOptions;

/// Relies on lyon's `StrokeOptions::default`, which returns its default stroke parameters.
pub assume_specification[ <StrokeOptions as core::default::Default>::default ]() -> StrokeOptions;

/// Fill or stroke tessellation options.
#[derive(Clone, Copy, Debug)]
pub enum Options {
    Fill(FillOptions),
    Stroke(StrokeOptions),
}

/// A set of tessellation options that selects fill or stroke tessellation.
pub trait TessellationOptions: Sized {
    /// The options as a fill-or-stroke value.
    spec fn spec_into_options(self) -> Options;

    /// Convert the typed options into a fill-or-stroke value.
    fn into_options(self) -> (r: Options)
        ensures
            r == self.spec_into_options(),
    ;
}

impl TessellationOptions for FillOptions {
    open spec fn spec_into_options(self) -> Options {
        Options::Fill(self)
    }

    fn into_options(self) -> (r: Options) {
        Options::Fill(self)
    }
}

impl TessellationOptions for StrokeOptions {
    open spec fn spec_into_options(self) -> Options {
        Options::Stroke(self)
    }

    fn into_options(self) -> (r: Options) {
        Options::Stroke(self)
    }
}

/// The kind of vertex data a primitive's mesh carries, which decides the render pipeline.
#[derive(Clone, Copy, Debug, PartialEq, Eq)]
pub enum VertexMode {
    /// Vertices are colored.
    Color,
    /// Vertices sample a texture.
    Texture,
}

/// Where a primitive's geometry lives: a range of one of the frame's buffers.
#[derive(Clone, Copy, Debug, PartialEq, Eq)]
pub enum PathEventSource {
    /// Canonical events, in `PathBuffers::events`.
    Buffered { start: usize, end: usize },
    /// A polyline of colored points, in `PathBuffers::points_colored`.
    ColoredPoints { start: usize, end: usize, close: bool },
    /// A polyline of textured points, in `PathBuffers::points_textured`.
    TexturedPoints { start: usize, end: usize, close: bool },
}

/// The default fill and stroke colors of paths, used when a path sets no color of its own.
#[derive(Clone, Copy, Debug, PartialEq)]
pub struct Theme<C> {
    pub fill: C,
    pub stroke: C,
}

/// The buffers that a frame's path primitives write into.
pub struct PathBuffers<P, C, T> {
    events: Vec<Event<P>>,
    points_colored: Vec<(P, C)>,
    points_textured: Vec<(P, T)>,
}

impl<P, C, T> PathBuffers<P, C, T> {
    /// The buffered canonical events.
    pub closed spec fn spec_events(&self) -> Seq<Event<P>> {
        self.events@
    }

    /// The buffered colored points.
    pub closed spec fn spec_points_colored(&self) -> Seq<(P, C)> {
        self.points_colored@
    }

    /// The buffered textured points.
    pub closed spec fn spec_points_textured(&self) -> Seq<(P, T)> {
        self.points_textured@
    }

    /// Empty buffers.
    pub fn new() -> (r: Self)
        ensures
            r.spec_events().len() == 0,
            r.spec_points_colored().len() == 0,
            r.spec_points_textured().len() == 0,
    {
        PathBuffers { events: Vec::new(), points_colored: Vec::new(), points_textured: Vec::new() }
    }

    /// Empty every buffer for the next frame, keeping the allocations.
    pub fn clear(&mut self)
        ensures
            final(self).spec_events().len() == 0,
            final(self).spec_points_colored().len() == 0,
            final(self).spec_points_textured().len() == 0,
    {
        self.events.clear();
        self.points_colored.clear();
        self.points_textured.clear();
    }
}

/// The events of a polyline through `points`: a `Begin` at the first point, a `Line` to each
/// following point, and an `End` that closes the polyline if `close` is set. No points give no
/// events.
pub open spec fn polyline_events<P>(points: Seq<P>, close: bool) -> Seq<Event<P>> {
    if points.len() == 0 {
        seq![]
    } else {
        seq![Event::Begin { at: points[0] }] + Seq::new(
            (points.len() - 1) as nat,
            |i: int| Event::Line { from: points[i], to: points[i + 1] },
        ) + seq![Event::End { last: points.last(), first: points[0], close }]
    }
}

/// Build the events of a polyline through `points`.
pub fn points_to_events<P: Copy>(points: &[P], close: bool) -> (r: Vec<Event<P>>)
    ensures
        r@ == polyline_events(points@, close),
{
    let mut r: Vec<Event<P>> = Vec::new();
    if points.len() == 0 {
        return r;
    }
    r.push(Event::Begin { at: points[0] });
    let mut i: usize = 1;
    while i < points.len()
        invariant
            1 <= i <= points@.len(),
            r@ == seq![Event::Begin { at: points@[0] }] + Seq::new(
                (i - 1) as nat,
                |k: int| Event::Line { from: points@[k], to: points@[k + 1] },
            ),
        decreases points@.len() - i,
    {
        r.push(Event::Line { from: points[i - 1], to: points[i] });
        proof {
            assert(r@ =~= seq![Event::Begin { at: points@[0] }] + Seq::new(
                i as nat,
                |k: int| Event::Line { from: points@[k], to: points@[k + 1] },
            ));
        }
        i = i + 1;
    }
    r.push(Event::End { last: points[points.len() - 1], first: points[0], close });
    proof {
        assert(r@ =~= polyline_events(points@, close));
    }
    r
}

/// The beginning of building a path, before fill or stroke tessellation is chosen.
#[derive(Clone, Copy, Debug, Default, PartialEq, Eq)]
pub struct PathInit;

/// A path being built, with its tessellation options chosen.
///
/// `spatial` holds the path's position and orientation, which the renderer applies together
/// with the frame's transform.
#[derive(Clone, Debug)]
pub struct PathOptions<O, C, S> {
    pub opts: O,
    pub color: Option<C>,
    pub spatial: S,
}

/// A buffered path primitive, ready to be rendered within the frame that recorded it.
#[derive(Debug)]
pub struct Path<C, S, V> {
    /// The path's own color, if one was set.
    pub color: Option<C>,
    /// The path's position and orientation.
    pub spatial: S,
    /// Where the path's geometry was buffered.
    pub source: PathEventSource,
    /// Fill or stroke tessellation options.
    pub options: Options,
    /// The kind of vertex data the path produces.
    pub vertex_mode: VertexMode,
    /// The texture that textured points sample.
    pub texture_view: Option<V>,
}

/// What rendering a primitive asks of the tessellator.
pub enum Tessellation<P, C, T> {
    /// Tessellate these events, giving every vertex the single color `color`.
    Events { events: Vec<Event<P>>, color: C },
    /// Tessellate a polyline of colored points, interpolating the color between them.
    ColoredPoints { points: Vec<(P, C)>, close: bool },
    /// Tessellate a polyline of textured points, interpolating the texture coordinates between
    /// them.
    TexturedPoints { points: Vec<(P, T)>, close: bool },
    /// There is no geometry to tessellate.
    Nothing,
}

/// What the renderer needs to know about a primitive to pick its pipeline.
#[derive(Debug)]
pub struct PrimitiveRender<V> {
    pub texture_view: Option<V>,
    pub vertex_mode: VertexMode,
}

/// A primitive resolved for rendering.
pub struct RenderJob<P, C, T, S, V> {
    pub tessellation: Tessellation<P, C, T>,
    pub options: Options,
    pub spatial: S,
    pub render: PrimitiveRender<V>,
}

/// The color of every vertex of a plain event path: its own color, or else the theme's fill or
/// stroke color, by the kind of tessellation.
pub open spec fn fixed_color<C>(color: Option<C>, options: Options, theme: Theme<C>) -> C {
    match color {
        Some(c) => c,
        None => match options {
            Options::Fill(_) => theme.fill,
            Options::Stroke(_) => theme.stroke,
        },
    }
}

/// The color of every vertex of a plain event path.
pub fn resolve_color<C: Copy>(color: Option<C>, options: &Options, theme: &Theme<C>) -> (r: C)
    ensures
        r == fixed_color(color, *options, *theme),
{
    match color {
        Some(c) => c,
        None => match options {
            Options::Fill(_) => theme.fill,
            Options::Stroke(_) => theme.stroke,
        },
    }
}

/// The range of `source` lies within the buffer it names.
pub open spec fn source_in_bounds<P, C, T>(source: PathEventSource, buffers: PathBuffers<P, C, T>) -> bool {
    match source {
        PathEventSource::Buffered { start, end } => start <= end <= buffers.spec_events().len(),
        PathEventSource::ColoredPoints { start, end, .. } => start <= end
            <= buffers.spec_points_colored().len(),
        PathEventSource::TexturedPoints { start, end, .. } => start <= end
            <= buffers.spec_points_textured().len(),
    }
}

impl PathEventSource {
    /// Whether the range lies within the buffer it names.
    pub fn in_bounds<P, C, T>(&self, buffers: &PathBuffers<P, C, T>) -> (r: bool)
        ensures
            r == source_in_bounds(*self, *buffers),
    {
        match *self {
            PathEventSource::Buffered { start, end } => start <= end && end <= buffers.events.len(),
            PathEventSource::ColoredPoints { start, end, .. } => start <= end && end
                <= buffers.points_colored.len(),
            PathEventSource::TexturedPoints { start, end, .. } => start <= end && end
                <= buffers.points_textured.len(),
        }
    }
}

fn copy_range<X: Copy>(v: &Vec<X>, start: usize, end: usize) -> (r: Vec<X>)
    requires
        start <= end <= v@.len(),
    ensures
        r@ == v@.subrange(start as int, end as int),
{
    let mut r: Vec<X> = Vec::new();
    let mut i: usize = start;
    while i < end
        invariant
            start <= i <= end,
            end <= v@.len(),
            r@ == v@.subrange(start as int, i as int),
        decreases end - i,
    {
        r.push(v[i]);
        proof {
            assert(r@ =~= v@.subrange(start as int, i + 1));
        }
        i = i + 1;
    }
    r
}

fn append<X: Copy>(v: &mut Vec<X>, items: &[X])
    ensures
        final(v)@ == old(v)@ + items@,
{
    let mut i: usize = 0;
    while i < items.len()
        invariant
            0 <= i <= items@.len(),
            v@ == old(v)@ + items@.subrange(0, i as int),
        decreases items@.len() - i,
    {
        v.push(items[i]);
        proof {
            assert(v@ =~= old(v)@ + items@.subrange(0, i + 1));
        }
        i = i + 1;
    }
    proof {
        assert(items@.subrange(0, i as int) =~= items@);
    }
}

impl PathInit {
    /// Choose fill tessellation, with lyon's default fill options.
    pub fn fill<C, S: Default>(self) -> (r: PathOptions<FillOptions, C, S>)
        ensures
            r.color is None,
    {
        let opts = FillOptions::default();
        PathOptions::new(opts)
    }

    /// Choose stroke tessellation, with lyon's default stroke options.
    pub fn stroke<C, S: Default>(self) -> (r: PathOptions<StrokeOptions, C, S>)
        ensures
            r.color is None,
    {
        let opts = StrokeOptions::default();
        PathOptions::new(opts)
    }
}

impl<O, C, S: Default> PathOptions<O, C, S> {
    /// Start building a path with the given options, no color and the default position and
    /// orientation.
    pub fn new(opts: O) -> (r: Self)
        ensures
            r.opts == opts,
            r.color is None,
    {
        PathOptions { opts, color: None, spatial: S::default() }
    }
}

impl<O: TessellationOptions, C, S> PathOptions<O, C, S> {
    /// Buffer the given events and make a path primitive of them.
    pub fn events<P: Copy, T, V>(self, buffers: &mut PathBuffers<P, C, T>, events: &[Event<P>]) -> (r: Path<C, S, V>)
        ensures
            final(buffers).spec_events() == old(buffers).spec_events() + events@,
            final(buffers).spec_points_colored() == old(buffers).spec_points_colored(),
            final(buffers).spec_points_textured() == old(buffers).spec_points_textured(),
            r == (Path::<C, S, V> {
                color: self.color,
                spatial: self.spatial,
                source: PathEventSource::Buffered {
                    start: old(buffers).spec_events().len() as usize,
                    end: final(buffers).spec_events().len() as usize,
                },
                options: self.opts.spec_into_options(),
                vertex_mode: VertexMode::Color,
                texture_view: None,
            }),
    {
        let start = buffers.events.len();
        append(&mut buffers.events, events);
        let end = buffers.events.len();
        Path {
            color: self.color,
            spatial: self.spatial,
            source: PathEventSource::Buffered { start, end },
            options: self.opts.into_options(),
            vertex_mode: VertexMode::Color,
            texture_view: None,
        }
    }

    /// Buffer the events of an open polyline through `points` and make a path primitive of them.
    pub fn points<P: Copy, T, V>(self, buffers: &mut PathBuffers<P, C, T>, points: &[P]) -> (r: Path<C, S, V>)
        ensures
            final(buffers).spec_events() == old(buffers).spec_events() + polyline_events(points@, false),
            final(buffers).spec_points_colored() == old(buffers).spec_points_colored(),
            final(buffers).spec_points_textured() == old(buffers).spec_points_textured(),
            r == (Path::<C, S, V> {
                color: self.color,
                spatial: self.spatial,
                source: PathEventSource::Buffered {
                    start: old(buffers).spec_events().len() as usize,
                    end: final(buffers).spec_events().len() as usize,
                },
                options: self.opts.spec_into_options(),
                vertex_mode: VertexMode::Color,
                texture_view: None,
            }),
    {
        self.points_inner(buffers, false, points)
    }

    /// Buffer the events of a closed polyline through `points` and make a path primitive of them.
    pub fn points_closed<P: Copy, T, V>(self, buffers: &mut PathBuffers<P, C, T>, points: &[P]) -> (r: Path<C, S, V>)
        ensures
            final(buffers).spec_events() == old(buffers).spec_events() + polyline_events(points@, true),
            final(buffers).spec_points_colored() == old(buffers).spec_points_colored(),
            final(buffers).spec_points_textured() == old(buffers).spec_points_textured(),
            r == (Path::<C, S, V> {
                color: self.color,
                spatial: self.spatial,
                source: PathEventSource::Buffered {
                    start: old(buffers).spec_events().len() as usize,
                    end: final(buffers).spec_events().len() as usize,
                },
                options: self.opts.spec_into_options(),
                vertex_mode: VertexMode::Color,
                texture_view: None,
            }),
    {
        self.points_inner(buffers, true, points)
    }

    fn points_inner<P: Copy, T, V>(self, buffers: &mut PathBuffers<P, C, T>, close: bool, points: &[P]) -> (r: Path<C, S, V>)
        ensures
            final(buffers).spec_events() == old(buffers).spec_events() + polyline_events(points@, close),
            final(buffers).spec_points_colored() == old(buffers).spec_points_colored(),
            final(buffers).spec_points_textured() == old(buffers).spec_points_textured(),
            r == (Path::<C, S, V> {
                color: self.color,
                spatial: self.spatial,
                source: PathEventSource::Buffered {
                    start: old(buffers).spec_events().len() as usize,
                    end: final(buffers).spec_events().len() as usize,
                },
                options: self.opts.spec_into_options(),
                vertex_mode: VertexMode::Color,
                texture_view: None,
            }),
    {
        let events = points_to_events(points, close);
        self.events(buffers, events.as_slice())
    }

    /// Buffer an open polyline of colored points and make a path primitive of it.
    pub fn points_colored<P: Copy, T, V>(self, buffers: &mut PathBuffers<P, C, T>, points: &[(P, C)]) -> (r: Path<C, S, V>)
        where C: Copy,
        ensures
            final(buffers).spec_points_colored() == old(buffers).spec_points_colored() + points@,
            final(buffers).spec_events() == old(buffers).spec_events(),
            final(buffers).spec_points_textured() == old(buffers).spec_points_textured(),
            r == (Path::<C, S, V> {
                color: self.color,
                spatial: self.spatial,
                source: PathEventSource::ColoredPoints {
                    start: old(buffers).spec_points_colored().len() as usize,
                    end: final(buffers).spec_points_colored().len() as usize,
                    close: false,
                },
                options: self.opts.spec_into_options(),
                vertex_mode: VertexMode::Color,
                texture_view: None,
            }),
    {
        self.points_colored_inner(buffers, false, points)
    }

    /// Buffer a closed polyline of colored points and make a path primitive of it.
    pub fn points_colored_closed<P: Copy, T, V>(self, buffers: &mut PathBuffers<P, C, T>, points: &[(P, C)]) -> (r: Path<C, S, V>)
        where C: Copy,
        ensures
            final(buffers).spec_points_colored() == old(buffers).spec_points_colored() + points@,
            final(buffers).spec_events() == old(buffers).spec_events(),
            final(buffers).spec_points_textured() == old(buffers).spec_points_textured(),
            r == (Path::<C, S, V> {
                color: self.color,
                spatial: self.spatial,
                source: PathEventSource::ColoredPoints {
                    start: old(buffers).spec_points_colored().len() as usize,
                    end: final(buffers).spec_points_colored().len() as usize,
                    close: true,
                },
                options: self.opts.spec_into_options(),
                vertex_mode: VertexMode::Color,
                texture_view: None,
            }),
    {
        self.points_colored_inner(buffers, true, points)
    }

    fn points_colored_inner<P: Copy, T, V>(self, buffers: &mut PathBuffers<P, C, T>, close: bool, points: &[(P, C)]) -> (r: Path<C, S, V>)
        where C: Copy,
        ensures
            final(buffers).spec_points_colored() == old(buffers).spec_points_colored() + points@,
            final(buffers).spec_events() == old(buffers).spec_events(),
            final(buffers).spec_points_textured() == old(buffers).spec_points_textured(),
            r == (Path::<C, S, V> {
                color: self.color,
                spatial: self.spatial,
                source: PathEventSource::ColoredPoints {
                    start: old(buffers).spec_points_colored().len() as usize,
                    end: final(buffers).spec_points_colored().len() as usize,
                    close,
                },
                options: self.opts.spec_into_options(),
                vertex_mode: VertexMode::Color,
                texture_view: None,
            }),
    {
        let start = buffers.points_colored.len();
        append(&mut buffers.points_colored, points);
        let end = buffers.points_colored.len();
        Path {
            color: self.color,
            spatial: self.spatial,
            source: PathEventSource::ColoredPoints { start, end, close },
            options: self.opts.into_options(),
            vertex_mode: VertexMode::Color,
            texture_view: None,
        }
    }

    /// Buffer an open polyline of textured points, sampling `texture_view`, and make a path
    /// primitive of it.
    pub fn points_textured<P: Copy, T: Copy, V>(self, buffers: &mut PathBuffers<P, C, T>, texture_view: V, points: &[(P, T)]) -> (r: Path<C, S, V>)
        ensures
            final(buffers).spec_points_textured() == old(buffers).spec_points_textured() + points@,
            final(buffers).spec_events() == old(buffers).spec_events(),
            final(buffers).spec_points_colored() == old(buffers).spec_points_colored(),
            r == (Path::<C, S, V> {
                color: self.color,
                spatial: self.spatial,
                source: PathEventSource::TexturedPoints {
                    start: old(buffers).spec_points_textured().len() as usize,
                    end: final(buffers).spec_points_textured().len() as usize,
                    close: false,
                },
                options: self.opts.spec_into_options(),
                vertex_mode: VertexMode::Texture,
                texture_view: Some(texture_view),
            }),
    {
        self.points_textured_inner(buffers, texture_view, false, points)
    }

    /// Buffer a closed polyline of textured points, sampling `texture_view`, and make a path
    /// primitive of it.
    pub fn points_textured_closed<P: Copy, T: Copy, V>(self, buffers: &mut PathBuffers<P, C, T>, texture_view: V, points: &[(P, T)]) -> (r: Path<C, S, V>)
        ensures
            final(buffers).spec_points_textured() == old(buffers).spec_points_textured() + points@,
            final(buffers).spec_events() == old(buffers).spec_events(),
            final(buffers).spec_points_colored() == old(buffers).spec_points_colored(),
            r == (Path::<C, S, V> {
                color: self.color,
                spatial: self.spatial,
                source: PathEventSource::TexturedPoints {
                    start: old(buffers).spec_points_textured().len() as usize,
                    end: final(buffers).spec_points_textured().len() as usize,
                    close: true,
                },
                options: self.opts.spec_into_options(),
                vertex_mode: VertexMode::Texture,
                texture_view: Some(texture_view),
            }),
    {
        self.points_textured_inner(buffers, texture_view, true, points)
    }

    fn points_textured_inner<P: Copy, T: Copy, V>(self, buffers: &mut PathBuffers<P, C, T>, texture_view: V, close: bool, points: &[(P, T)]) -> (r: Path<C, S, V>)
        ensures
            final(buffers).spec_points_textured() == old(buffers).spec_points_textured() + points@,
            final(buffers).spec_events() == old(buffers).spec_events(),
            final(buffers).spec_points_colored() == old(buffers).spec_points_colored(),
            r == (Path::<C, S, V> {
                color: self.color,
                spatial: self.spatial,
                source: PathEventSource::TexturedPoints {
                    start: old(buffers).spec_points_textured().len() as usize,
                    end: final(buffers).spec_points_textured().len() as usize,
                    close,
                },
                options: self.opts.spec_into_options(),
                vertex_mode: VertexMode::Texture,
                texture_view: Some(texture_view),
            }),
    {
        let start = buffers.points_textured.len();
        append(&mut buffers.points_textured, points);
        let end = buffers.points_textured.len();
        Path {
            color: self.color,
            spatial: self.spatial,
            source: PathEventSource::TexturedPoints { start, end, close },
            options: self.opts.into_options(),
            vertex_mode: VertexMode::Texture,
            texture_view: Some(texture_view),
        }
    }
}

impl<C: Copy, S, V> Path<C, S, V> {
    /// Resolve the primitive against the frame's buffers: read back its range and say how it is
    /// to be tessellated. A plain event path is drawn in its own color, or else in the theme's
    /// color for its kind of tessellation. A polyline of no points has nothing to tessellate.
    pub fn render_primitive<P: Copy, T: Copy>(self, buffers: &PathBuffers<P, C, T>, theme: &Theme<C>) -> (r: RenderJob<P, C, T, S, V>)
        requires
            source_in_bounds(self.source, *buffers),
        ensures
            r.options == self.options,
            r.spatial == self.spatial,
            r.render == (PrimitiveRender { texture_view: self.texture_view, vertex_mode: self.vertex_mode }),
            match self.source {
                PathEventSource::Buffered { start, end } => match r.tessellation {
                    Tessellation::Events { events, color } => events@ == buffers.spec_events().subrange(
                        start as int,
                        end as int,
                    ) && color == fixed_color(self.color, self.options, *theme),
                    _ => false,
                },
                PathEventSource::ColoredPoints { start, end, close } => if start == end {
                    r.tessellation is Nothing
                } else {
                    match r.tessellation {
                        Tessellation::ColoredPoints { points, close: c } => points@
                            == buffers.spec_points_colored().subrange(start as int, end as int) && c
                            == close,
                        _ => false,
                    }
                },
                PathEventSource::TexturedPoints { start, end, close } => if start == end {
                    r.tessellation is Nothing
                } else {
                    match r.tessellation {
                        Tessellation::TexturedPoints { points, close: c } => points@
                            == buffers.spec_points_textured().subrange(start as int, end as int) && c
                            == close,
                        _ => false,
                    }
                },
            },
    {
        let Path { color, spatial, source, options, vertex_mode, texture_view } = self;
        let tessellation = match source {
            PathEventSource::Buffered { start, end } => {
                let events = copy_range(&buffers.events, start, end);
                let color = resolve_color(color, &options, theme);
                Tessellation::Events { events, color }
            },
            PathEventSource::ColoredPoints { start, end, close } => {
                if start == end {
                    Tessellation::Nothing
                } else {
                    let points = copy_range(&buffers.points_colored, start, end);
                    Tessellation::ColoredPoints { points, close }
                }
            },
            PathEventSource::TexturedPoints { start, end, close } => {
                if start == end {
                    Tessellation::Nothing
                } else {
                    let points = copy_range(&buffers.points_textured, start, end);
                    Tessellation::TexturedPoints { points, close }
                }
            },
        };
        RenderJob {
            tessellation,
            options,
            spatial,
            render: PrimitiveRender { texture_view, vertex_mode },
        }
    }
}

} // verus!
