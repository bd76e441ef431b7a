use splatter::events::{convert_path, Event, Segment};

type P = [f32; 2];

fn canonical(segments: Vec<Segment<P>>) -> Vec<Event<P>> {
    convert_path(segments, [0.0, 0.0]).collect_events()
}

#[test]
fn open_path_gets_one_synthetic_end() {
    let events = canonical(vec![
        Segment::MoveTo([1.0, 1.0]),
        Segment::LineTo([4.0, 1.0]),
        Segment::CubicTo([5.0, 2.0], [5.0, 3.0], [4.0, 4.0]),
    ]);
    assert_eq!(
        events,
        vec![
            Event::Begin { at: [1.0, 1.0] },
            Event::Line { from: [1.0, 1.0], to: [4.0, 1.0] },
            Event::Cubic { from: [4.0, 1.0], ctrl1: [5.0, 2.0], ctrl2: [5.0, 3.0], to: [4.0, 4.0] },
            Event::End { last: [4.0, 4.0], first: [1.0, 1.0], close: false },
        ]
    );
    let ends = events.iter().filter(|e| matches!(e, Event::End { .. })).count();
    assert_eq!(ends, 1);
}

#[test]
fn explicit_close_ends_at_the_start() {
    let events = canonical(vec![
        Segment::MoveTo([0.0, 0.0]),
        Segment::LineTo([10.0, 0.0]),
        Segment::LineTo([10.0, 10.0]),
        Segment::Close,
    ]);
    assert_eq!(events.len(), 4);
    assert_eq!(events[3], Event::End { last: [0.0, 0.0], first: [0.0, 0.0], close: true });
    for e in &events {
        if let Event::End { last, first, close: true } = e {
            assert_eq!(last, first);
        }
    }
}

#[test]
fn move_while_open_ends_then_begins() {
    let events = canonical(vec![
        Segment::MoveTo([0.0, 0.0]),
        Segment::LineTo([1.0, 0.0]),
        Segment::MoveTo([5.0, 5.0]),
        Segment::LineTo([6.0, 5.0]),
    ]);
    assert_eq!(
        events,
        vec![
            Event::Begin { at: [0.0, 0.0] },
            Event::Line { from: [0.0, 0.0], to: [1.0, 0.0] },
            Event::End { last: [1.0, 0.0], first: [0.0, 0.0], close: false },
            Event::Begin { at: [5.0, 5.0] },
            Event::Line { from: [5.0, 5.0], to: [6.0, 5.0] },
            Event::End { last: [6.0, 5.0], first: [5.0, 5.0], close: false },
        ]
    );
}

#[test]
fn quadratic_control_point_keeps_its_own_coordinates() {
    let events = canonical(vec![
        Segment::MoveTo([0.0, 0.0]),
        Segment::QuadTo([3.0, 7.0], [10.0, 2.0]),
    ]);
    assert_eq!(events[1], Event::Quadratic { from: [0.0, 0.0], ctrl: [3.0, 7.0], to: [10.0, 2.0] });
}

#[test]
fn a_line_after_close_reopens_from_the_start() {
    let events = canonical(vec![
        Segment::MoveTo([2.0, 2.0]),
        Segment::LineTo([3.0, 2.0]),
        Segment::Close,
        Segment::LineTo([2.0, 5.0]),
    ]);
    assert_eq!(events[3], Event::Line { from: [2.0, 2.0], to: [2.0, 5.0] });
    assert_eq!(events[4], Event::End { last: [2.0, 5.0], first: [2.0, 2.0], close: false });
    assert_eq!(events.len(), 5);
}

#[test]
fn empty_and_closed_inputs_add_nothing_at_the_end() {
    assert!(canonical(vec![]).is_empty());
    let events = canonical(vec![Segment::MoveTo([1.0, 1.0]), Segment::LineTo([2.0, 2.0]), Segment::Close]);
    assert_eq!(events.len(), 3);
}

#[test]
fn next_yields_one_event_at_a_time() {
    let mut it = convert_path(vec![Segment::MoveTo([0.0f32, 0.0]), Segment::LineTo([1.0, 0.0]), Segment::MoveTo([2.0, 0.0])], [0.0, 0.0]);
    assert_eq!(it.next(), Some(Event::Begin { at: [0.0, 0.0] }));
    assert_eq!(it.next(), Some(Event::Line { from: [0.0, 0.0], to: [1.0, 0.0] }));
    assert_eq!(it.next(), Some(Event::End { last: [1.0, 0.0], first: [0.0, 0.0], close: false }));
    assert_eq!(it.next(), Some(Event::Begin { at: [2.0, 0.0] }));
    assert_eq!(it.next(), None);
    assert_eq!(it.next(), None);
}

#[test]
fn every_sub_path_is_begun_and_ended_once() {
    let events = canonical(vec![
        Segment::MoveTo([0.0, 0.0]),
        Segment::LineTo([1.0, 0.0]),
        Segment::Close,
        Segment::MoveTo([2.0, 0.0]),
        Segment::QuadTo([3.0, 1.0], [4.0, 0.0]),
        Segment::MoveTo([5.0, 0.0]),
        Segment::Close,
        Segment::MoveTo([6.0, 0.0]),
        Segment::LineTo([7.0, 0.0]),
    ]);
    let mut open = false;
    for e in &events {
        match e {
            Event::Begin { .. } => {
                assert!(!open);
                open = true;
            }
            Event::End { .. } => {
                assert!(open);
                open = false;
            }
            _ => assert!(open),
        }
    }
    assert!(!open);
    assert_eq!(events.iter().filter(|e| matches!(e, Event::Begin { .. })).count(), 4);
    assert_eq!(events.iter().filter(|e| matches!(e, Event::End { .. })).count(), 4);
}
