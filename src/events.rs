//! The canonical path event model.
//!
//! A path is described by a stream of events: every sub-path is opened by a `Begin` and closed by
//! exactly one `End`. Curve sources such as SVG parsers produce raw segments instead (move, line,
//! quadratic, cubic, close) and may leave a sub-path open. `PathConvIter` turns such a segment
//! sequence into the canonical stream, inserting the `End` events that the source left out.

use vstd::prelude::*;

verus! {

/// One raw segment of an externally sourced path.
#[derive(Clone, Copy, Debug, PartialEq)]
pub enum Segment<P> {
    MoveTo(P),
    LineTo(P),
    /// A quadratic curve: the control point, then the end point.
    QuadTo(P, P),
    /// A cubic curve: the two control points, then the end point.
    CubicTo(P, P, P),
    Close,
}

/// One canonical path event.
#[derive(Clone, Copy, Debug, PartialEq)]
pub enum Event<P> {
    Begin { at: P },
    Line { from: P, to: P },
    Quadratic { from: P, ctrl: P, to: P },
    Cubic { from: P, ctrl1: P, ctrl2: P, to: P },
    End { last: P, first: P, close: bool },
}

/// What the conversion remembers between segments.
#[derive(Clone, Copy, Debug, PartialEq)]
pub struct ConvState<P> {
    /// The end point of the last segment.
    pub prev: P,
    /// The start point of the current sub-path.
    pub first: P,
    /// Whether a sub-path is open and still owes its `End`.
    pub needs_end: bool,
}

/// The state after reading `seg` in state `s`.
pub open spec fn next_state<P>(s: ConvState<P>, seg: Segment<P>) -> ConvState<P> {
    match seg {
        Segment::MoveTo(p) => ConvState { prev: p, first: p, needs_end: false },
        Segment::LineTo(p) => ConvState { prev: p, first: s.first, needs_end: true },
        Segment::QuadTo(_, p) => ConvState { prev: p, first: s.first, needs_end: true },
        Segment::CubicTo(_, _, p) => ConvState { prev: p, first: s.first, needs_end: true },
        Segment::Close => ConvState { prev: s.first, first: s.first, needs_end: false },
    }
}

/// The events produced by reading `seg` in state `s`: a move while a sub-path is open first ends
/// that sub-path, then begins the next one.
pub open spec fn step_events<P>(s: ConvState<P>, seg: Segment<P>) -> Seq<Event<P>> {
    match seg {
        Segment::MoveTo(p) => if s.needs_end {
            seq![Event::End { last: s.prev, first: s.first, close: false }, Event::Begin { at: p }]
        } else {
            seq![Event::Begin { at: p }]
        },
        Segment::LineTo(p) => seq![Event::Line { from: s.prev, to: p }],
        Segment::QuadTo(c, p) => seq![Event::Quadratic { from: s.prev, ctrl: c, to: p }],
        Segment::CubicTo(c1, c2, p) => seq![Event::Cubic { from: s.prev, ctrl1: c1, ctrl2: c2, to: p }],
        Segment::Close => seq![Event::End { last: s.first, first: s.first, close: true }],
    }
}

/// The events produced once the input is exhausted: an `End` for a sub-path left open.
pub open spec fn end_events<P>(s: ConvState<P>) -> Seq<Event<P>> {
    if s.needs_end {
        seq![Event::End { last: s.prev, first: s.first, close: false }]
    } else {
        seq![]
    }
}

/// The canonical event stream for the segments `segs`, read from state `s`.
pub open spec fn events_from<P>(s: ConvState<P>, segs: Seq<Segment<P>>) -> Seq<Event<P>>
    decreases segs.len(),
{
    if segs.len() == 0 {
        end_events(s)
    } else {
        step_events(s, segs[0]) + events_from(next_state(s, segs[0]), segs.drop_first())
    }
}

/// The events that the segments themselves produce, without those owed at the end of input.
pub open spec fn body_events<P>(s: ConvState<P>, segs: Seq<Segment<P>>) -> Seq<Event<P>>
    decreases segs.len(),
{
    if segs.len() == 0 {
        seq![]
    } else {
        step_events(s, segs[0]) + body_events(next_state(s, segs[0]), segs.drop_first())
    }
}

/// The state after reading all of `segs` from state `s`.
pub open spec fn state_after<P>(s: ConvState<P>, segs: Seq<Segment<P>>) -> ConvState<P>
    decreases segs.len(),
{
    if segs.len() == 0 {
        s
    } else {
        state_after(next_state(s, segs[0]), segs.drop_first())
    }
}

/// The state in which a conversion starts: nothing open, both points at `origin`.
pub open spec fn initial_state<P>(origin: P) -> ConvState<P> {
    ConvState { prev: origin, first: origin, needs_end: false }
}

/// Converts raw segments into the canonical event stream, one event per call of `next`.
pub struct PathConvIter<P> {
    segments: Vec<Segment<P>>,
    pos: usize,
    state: ConvState<P>,
    deferred: Option<Event<P>>,
}

/// Start converting `segments`, with `origin` as the current point until the first move.
pub fn convert_path<P: Copy>(segments: Vec<Segment<P>>, origin: P) -> (r: PathConvIter<P>)
    ensures
        r.well_formed(),
        r.remaining() == events_from(initial_state(origin), segments@),
{
    let r = PathConvIter {
        segments,
        pos: 0,
        state: ConvState { prev: origin, first: origin, needs_end: false },
        deferred: None,
    };
    proof {
        assert(r.segments@.subrange(0, r.segments@.len() as int) == r.segments@);
    }
    r
}

impl<P: Copy> PathConvIter<P> {
    /// The position of the next segment to read is within the input.
    pub closed spec fn well_formed(&self) -> bool {
        self.pos <= self.segments@.len()
    }

    /// The events that this conversion has still to yield, in order.
    pub closed spec fn remaining(&self) -> Seq<Event<P>> {
        let pending = match self.deferred {
            Some(e) => seq![e],
            None => seq![],
        };
        pending + events_from(self.state, self.segments@.subrange(self.pos as int, self.segments@.len() as int))
    }

    /// Yield the next canonical event, or `None` once the stream is done.
    pub fn next(&mut self) -> (r: Option<Event<P>>)
        requires
            old(self).well_formed(),
        ensures
            final(self).well_formed(),
            old(self).remaining().len() == 0 ==> r is None && final(self).remaining() == old(self).remaining(),
            old(self).remaining().len() > 0 ==> r == Some(old(self).remaining()[0])
                && final(self).remaining() == old(self).remaining().drop_first(),
    {
        let ghost rest = self.segments@.subrange(self.pos as int, self.segments@.len() as int);
        if self.deferred.is_some() {
            let e = self.deferred;
            self.deferred = None;
            proof {
                assert(old(self).remaining() == seq![e.unwrap()] + events_from(self.state, rest));
                assert(old(self).remaining().drop_first() =~= events_from(self.state, rest));
                assert(self.remaining() =~= events_from(self.state, rest));
            }
            return e;
        }
        proof {
            assert(old(self).remaining() =~= events_from(self.state, rest));
        }
        if self.pos == self.segments.len() {
            proof {
                assert(rest.len() == 0);
            }
            if self.state.needs_end {
                let last = self.state.prev;
                let first = self.state.first;
                self.state.needs_end = false;
                proof {
                    assert(self.remaining() =~= seq![]);
                    assert(old(self).remaining().drop_first() =~= seq![]);
                }
                return Some(Event::End { last, first, close: false });
            } else {
                return None;
            }
        }
        let seg = self.segments[self.pos];
        let ghost s0 = self.state;
        proof {
            assert(rest[0] == seg);
            assert(rest.drop_first() =~= self.segments@.subrange(self.pos + 1, self.segments@.len() as int));
        }
        self.pos = self.pos + 1;
        let ghost tail = events_from(next_state(s0, seg), rest.drop_first());
        let r = match seg {
            Segment::MoveTo(p) => {
                if self.state.needs_end {
                    let last = self.state.prev;
                    let first = self.state.first;
                    self.state = ConvState { prev: p, first: p, needs_end: false };
                    self.deferred = Some(Event::Begin { at: p });
                    Event::End { last, first, close: false }
                } else {
                    self.state = ConvState { prev: p, first: p, needs_end: false };
                    Event::Begin { at: p }
                }
            },
            Segment::LineTo(p) => {
                let from = self.state.prev;
                self.state = ConvState { prev: p, first: self.state.first, needs_end: true };
                Event::Line { from, to: p }
            },
            Segment::QuadTo(ctrl, p) => {
                let from = self.state.prev;
                self.state = ConvState { prev: p, first: self.state.first, needs_end: true };
                Event::Quadratic { from, ctrl, to: p }
            },
            Segment::CubicTo(ctrl1, ctrl2, p) => {
                let from = self.state.prev;
                self.state = ConvState { prev: p, first: self.state.first, needs_end: true };
                Event::Cubic { from, ctrl1, ctrl2, to: p }
            },
            Segment::Close => {
                let first = self.state.first;
                self.state = ConvState { prev: first, first, needs_end: false };
                Event::End { last: first, first, close: true }
            },
        };
        proof {
            assert(self.state == next_state(s0, seg));
            assert(old(self).remaining() == step_events(s0, seg) + tail);
            assert(self.remaining() =~= old(self).remaining().drop_first());
        }
        Some(r)
    }

    /// Yield every remaining event, in order.
    pub fn collect_events(self) -> (r: Vec<Event<P>>)
        requires
            self.well_formed(),
        ensures
            r@ == self.remaining(),
    {
        let mut iter = self;
        let mut r: Vec<Event<P>> = Vec::new();
        loop
            invariant
                iter.well_formed(),
                r@ + iter.remaining() == self.remaining(),
            decreases iter.remaining().len(),
        {
            let ghost before = iter.remaining();
            match iter.next() {
                Some(e) => {
                    r.push(e);
                    proof {
                        assert(r@ + iter.remaining() =~= self.remaining());
                    }
                },
                None => {
                    proof {
                        assert(r@ =~= self.remaining());
                    }
                    return r;
                },
            }
        }
    }
}

/// Whether `seg` draws a line or a curve.
pub open spec fn is_drawing<P>(seg: Segment<P>) -> bool {
    match seg {
        Segment::LineTo(_) | Segment::QuadTo(_, _) | Segment::CubicTo(_, _, _) => true,
        _ => false,
    }
}

/// The point at which a drawing segment ends.
pub open spec fn end_point<P>(seg: Segment<P>) -> P
    recommends
        is_drawing(seg),
{
    match seg {
        Segment::LineTo(p) => p,
        Segment::QuadTo(_, p) => p,
        Segment::CubicTo(_, _, p) => p,
        Segment::MoveTo(p) => p,
        Segment::Close => arbitrary(),
    }
}

/// The start of the sub-path in progress after `segs`: the point of the last move, or `origin`
/// if there is none.
pub open spec fn subpath_start<P>(origin: P, segs: Seq<Segment<P>>) -> P
    decreases segs.len(),
{
    if segs.len() == 0 {
        origin
    } else {
        match segs.last() {
            Segment::MoveTo(p) => p,
            _ => subpath_start(origin, segs.drop_last()),
        }
    }
}

/// An `End` that closes its sub-path goes back to where the sub-path started.
pub open spec fn closes_at_start<P>(e: Event<P>) -> bool {
    match e {
        Event::End { last, first, close } => close ==> last == first,
        _ => true,
    }
}

proof fn lemma_events_split<P>(s: ConvState<P>, segs: Seq<Segment<P>>)
    ensures
        events_from(s, segs) == body_events(s, segs) + end_events(state_after(s, segs)),
    decreases segs.len(),
{
    if segs.len() > 0 {
        lemma_events_split(next_state(s, segs[0]), segs.drop_first());
        assert(events_from(s, segs) =~= body_events(s, segs) + end_events(state_after(s, segs)));
    } else {
        assert(events_from(s, segs) =~= body_events(s, segs) + end_events(state_after(s, segs)));
    }
}

proof fn lemma_state_after_push<P>(s: ConvState<P>, segs: Seq<Segment<P>>, seg: Segment<P>)
    ensures
        state_after(s, segs.push(seg)) == next_state(state_after(s, segs), seg),
    decreases segs.len(),
{
    if segs.len() > 0 {
        lemma_state_after_push(next_state(s, segs[0]), segs.drop_first(), seg);
        assert(segs.push(seg)[0] == segs[0]);
        assert(segs.push(seg).drop_first() =~= segs.drop_first().push(seg));
    } else {
        assert(segs.push(seg)[0] == seg);
        assert(segs.push(seg).drop_first() =~= Seq::<Segment<P>>::empty());
        assert(state_after(next_state(s, seg), Seq::<Segment<P>>::empty()) == next_state(s, seg));
    }
}

proof fn lemma_first_is_subpath_start<P>(origin: P, segs: Seq<Segment<P>>)
    ensures
        state_after(initial_state(origin), segs).first == subpath_start(origin, segs),
    decreases segs.len(),
{
    if segs.len() > 0 {
        let init = segs.drop_last();
        lemma_first_is_subpath_start(origin, init);
        lemma_state_after_push(initial_state(origin), init, segs.last());
        assert(init.push(segs.last()) =~= segs);
    }
}

/// A path whose segments end inside an open sub-path is terminated by exactly one synthetic
/// `End`: the stream is the segments' own events followed by that single `End`, which runs from
/// the last segment's end point back to the start of the sub-path and does not close it.
pub proof fn lemma_open_path_gets_one_end<P>(origin: P, segs: Seq<Segment<P>>)
    requires
        segs.len() > 0,
        is_drawing(segs.last()),
    ensures
        events_from(initial_state(origin), segs) == body_events(initial_state(origin), segs)
            + seq![
            Event::End {
                last: end_point(segs.last()),
                first: subpath_start(origin, segs),
                close: false,
            },
        ],
{
    let init = segs.drop_last();
    lemma_events_split(initial_state(origin), segs);
    lemma_state_after_push(initial_state(origin), init, segs.last());
    assert(init.push(segs.last()) =~= segs);
    lemma_first_is_subpath_start(origin, segs);
}

/// Every `End` that closes a sub-path in the canonical stream has `last == first`.
pub proof fn lemma_close_returns_to_start<P>(s: ConvState<P>, segs: Seq<Segment<P>>)
    ensures
        forall|k: int|
            0 <= k < events_from(s, segs).len() ==> closes_at_start(#[trigger] events_from(s, segs)[k]),
    decreases segs.len(),
{
    let ev = events_from(s, segs);
    if segs.len() == 0 {
        assert forall|k: int| 0 <= k < ev.len() implies closes_at_start(#[trigger] ev[k]) by {
        }
    } else {
        let head = step_events(s, segs[0]);
        let tail = events_from(next_state(s, segs[0]), segs.drop_first());
        lemma_close_returns_to_start(next_state(s, segs[0]), segs.drop_first());
        assert forall|k: int| 0 <= k < ev.len() implies closes_at_start(#[trigger] ev[k]) by {
            if k < head.len() {
                assert(ev[k] == head[k]);
            } else {
                assert(ev[k] == tail[k - head.len()]);
            }
        }
    }
}

/// Whether `ev` is a well-formed event stream, given whether a sub-path is open before it: a
/// `Begin` opens a sub-path only when none is open, lines and curves are drawn only inside an
/// open sub-path, an `End` closes the open sub-path, and nothing is left open at the end.
pub open spec fn well_formed_events<P>(ev: Seq<Event<P>>, open: bool) -> bool
    decreases ev.len(),
{
    if ev.len() == 0 {
        !open
    } else {
        match ev[0] {
            Event::Begin { .. } => !open && well_formed_events(ev.drop_first(), true),
            Event::End { .. } => open && well_formed_events(ev.drop_first(), false),
            _ => open && well_formed_events(ev.drop_first(), true),
        }
    }
}

/// Whether raw segments describe sub-paths properly, given whether one is open before them: a
/// move may come at any time but must be followed by a line, a curve or a close; lines, curves
/// and closes need an open sub-path, and a close ends it.
pub open spec fn well_formed_segments<P>(segs: Seq<Segment<P>>, open: bool) -> bool
    decreases segs.len(),
{
    if segs.len() == 0 {
        true
    } else {
        match segs[0] {
            Segment::MoveTo(_) => segs.len() >= 2 && !(segs[1] is MoveTo) && well_formed_segments(
                segs.drop_first(),
                true,
            ),
            Segment::Close => open && well_formed_segments(segs.drop_first(), false),
            _ => open && well_formed_segments(segs.drop_first(), true),
        }
    }
}

proof fn lemma_well_formed_events_cons<P>(e: Event<P>, rest: Seq<Event<P>>, open: bool)
    ensures
        well_formed_events(seq![e] + rest, open) == match e {
            Event::Begin { .. } => !open && well_formed_events(rest, true),
            Event::End { .. } => open && well_formed_events(rest, false),
            _ => open && well_formed_events(rest, true),
        },
{
    let ev = seq![e] + rest;
    assert(ev[0] == e);
    assert(ev.drop_first() =~= rest);
}

proof fn lemma_events_well_formed<P>(s: ConvState<P>, segs: Seq<Segment<P>>)
    requires
        well_formed_segments(segs, s.needs_end),
    ensures
        well_formed_events(events_from(s, segs), s.needs_end),
    decreases segs.len(),
{
    if segs.len() == 0 {
        if s.needs_end {
            lemma_well_formed_events_cons(
                Event::End { last: s.prev, first: s.first, close: false },
                Seq::empty(),
                true,
            );
            assert(seq![Event::End { last: s.prev, first: s.first, close: false }]
                =~= seq![Event::End { last: s.prev, first: s.first, close: false }] + Seq::<Event<P>>::empty());
        }
    } else {
        let seg = segs[0];
        let rest = segs.drop_first();
        let s1 = next_state(s, seg);
        match seg {
            Segment::MoveTo(p) => {
                let next = rest[0];
                let rest2 = rest.drop_first();
                let s2 = next_state(s1, next);
                assert(well_formed_segments(rest, true));
                assert(rest[0] == segs[1]);
                assert(!(next is MoveTo));
                assert(well_formed_segments(rest2, s2.needs_end));
                lemma_events_well_formed(s2, rest2);
                let tail = events_from(s2, rest2);
                let drawn = step_events(s1, next) + tail;
                assert(events_from(s1, rest) == drawn);
                match next {
                    Segment::Close => {
                        lemma_well_formed_events_cons(
                            Event::End { last: s1.first, first: s1.first, close: true },
                            tail,
                            true,
                        );
                    },
                    Segment::LineTo(q) => {
                        lemma_well_formed_events_cons(Event::Line { from: s1.prev, to: q }, tail, true);
                    },
                    Segment::QuadTo(c, q) => {
                        lemma_well_formed_events_cons(
                            Event::Quadratic { from: s1.prev, ctrl: c, to: q },
                            tail,
                            true,
                        );
                    },
                    Segment::CubicTo(c1, c2, q) => {
                        lemma_well_formed_events_cons(
                            Event::Cubic { from: s1.prev, ctrl1: c1, ctrl2: c2, to: q },
                            tail,
                            true,
                        );
                    },
                    Segment::MoveTo(_) => {},
                }
                lemma_well_formed_events_cons(Event::Begin { at: p }, drawn, false);
                if s.needs_end {
                    let end = Event::End { last: s.prev, first: s.first, close: false };
                    lemma_well_formed_events_cons(end, seq![Event::Begin { at: p }] + drawn, true);
                    assert(seq![end, Event::Begin { at: p }] + drawn =~= seq![end] + (seq![
                        Event::Begin { at: p },
                    ] + drawn));
                }
            },
            Segment::Close => {
                lemma_events_well_formed(s1, rest);
                lemma_well_formed_events_cons(
                    Event::End { last: s.first, first: s.first, close: true },
                    events_from(s1, rest),
                    true,
                );
            },
            Segment::LineTo(q) => {
                lemma_events_well_formed(s1, rest);
                lemma_well_formed_events_cons(Event::Line { from: s.prev, to: q }, events_from(s1, rest), true);
            },
            Segment::QuadTo(c, q) => {
                lemma_events_well_formed(s1, rest);
                lemma_well_formed_events_cons(
                    Event::Quadratic { from: s.prev, ctrl: c, to: q },
                    events_from(s1, rest),
                    true,
                );
            },
            Segment::CubicTo(c1, c2, q) => {
                lemma_events_well_formed(s1, rest);
                lemma_well_formed_events_cons(
                    Event::Cubic { from: s.prev, ctrl1: c1, ctrl2: c2, to: q },
                    events_from(s1, rest),
                    true,
                );
            },
        }
    }
}

/// Segments that describe their sub-paths properly give a well-formed canonical stream: every
/// sub-path is opened by a `Begin` and closed by exactly one `End` before the next `Begin`,
/// including those the segments leave open.
pub proof fn lemma_canonical_stream_well_formed<P>(origin: P, segs: Seq<Segment<P>>)
    requires
        well_formed_segments(segs, false),
    ensures
        well_formed_events(events_from(initial_state(origin), segs), false),
{
    lemma_events_well_formed(initial_state(origin), segs);
}

} // verus!
