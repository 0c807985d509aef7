use remarkable_events::{
    Event, Height, MissingField, Movement, Point, Step, Tool, ToolBuilder, ToolEvent, ToolKind,
    ToolReconstructor,
};

fn run(events: &[Event]) -> Vec<ToolEvent> {
    let mut r = ToolReconstructor::new();
    let mut out = Vec::new();
    for ev in events {
        if let Step::Emit(t) = r.step(*ev) {
            out.push(t);
        }
    }
    out
}

#[test]
fn pen_sample_without_height() {
    let out = run(&[
        Event::ToolAdded(ToolKind::Pen),
        Event::Movement(Movement::X(100)),
        Event::Movement(Movement::Y(200)),
        Event::Sync,
    ]);
    assert_eq!(
        out,
        vec![ToolEvent::Update(Tool {
            kind: ToolKind::Pen,
            point: Point { x: 100, y: 200 },
            tilt_x: None,
            tilt_y: None,
            height: Height::Missing,
        })]
    );
}

#[test]
fn pen_pressed_close_is_touching() {
    let out = run(&[
        Event::ToolAdded(ToolKind::Pen),
        Event::Movement(Movement::X(1)),
        Event::Movement(Movement::Y(1)),
        Event::Movement(Movement::Pressure(900)),
        Event::Movement(Movement::Distance(2)),
        Event::Sync,
    ]);
    assert_eq!(out.len(), 1);
    match out[0] {
        ToolEvent::Update(t) => assert_eq!(t.height, Height::Touching(900)),
        ToolEvent::Removed => panic!("expected an update"),
    }
}

fn builder(pressure: Option<u32>, distance: Option<u32>) -> ToolBuilder {
    let mut b = ToolBuilder::new();
    b.reset(ToolKind::Stylus);
    b.apply_movement(Movement::X(3));
    b.apply_movement(Movement::Y(4));
    if let Some(p) = pressure {
        b.apply_movement(Movement::Pressure(p));
    }
    if let Some(d) = distance {
        b.apply_movement(Movement::Distance(d));
    }
    b
}

#[test]
fn height_classification() {
    let h = |p, d| builder(p, d).construct().unwrap().height;
    assert_eq!(h(Some(701), Some(9)), Height::Touching(701));
    assert_eq!(h(Some(700), Some(9)), Height::Distance(9));
    assert_eq!(h(Some(900), Some(10)), Height::Distance(10));
    assert_eq!(h(Some(5), None), Height::Touching(5));
    assert_eq!(h(None, Some(40)), Height::Distance(40));
    assert_eq!(h(None, None), Height::Missing);
}

#[test]
fn construct_names_missing_field() {
    let mut b = ToolBuilder::default();
    assert_eq!(b.construct(), Err(MissingField::X));
    b.apply_movement(Movement::X(1));
    assert_eq!(b.construct(), Err(MissingField::Y));
    b.apply_movement(Movement::Y(1));
    assert_eq!(b.construct(), Err(MissingField::Kind));
}

#[test]
fn latest_axis_value_wins_and_tilt_is_kept() {
    let out = run(&[
        Event::ToolAdded(ToolKind::Rubber),
        Event::Movement(Movement::X(1)),
        Event::Movement(Movement::X(7)),
        Event::Movement(Movement::Y(8)),
        Event::Movement(Movement::TiltX(-3)),
        Event::Movement(Movement::TiltY(4)),
        Event::Sync,
    ]);
    assert_eq!(
        out,
        vec![ToolEvent::Update(Tool {
            kind: ToolKind::Rubber,
            point: Point { x: 7, y: 8 },
            tilt_x: Some(-3),
            tilt_y: Some(4),
            height: Height::Missing,
        })]
    );
}

#[test]
fn idle_sync_emits_nothing() {
    let mut r = ToolReconstructor::new();
    assert_eq!(r.step(Event::Sync), Step::Unfinished(MissingField::X));
    assert_eq!(run(&[Event::Sync, Event::Sync]), vec![]);
}

#[test]
fn removal_emits_once_and_skips_one_sync() {
    let mut r = ToolReconstructor::new();
    r.step(Event::ToolAdded(ToolKind::Pen));
    r.step(Event::Movement(Movement::X(1)));
    r.step(Event::Movement(Movement::Y(2)));
    assert_eq!(r.step(Event::ToolRemoved(ToolKind::Pen)), Step::Emit(ToolEvent::Removed));
    assert_eq!(r.syncs_to_ignore, 1);
    assert_eq!(r.step(Event::Sync), Step::Quiet);
    assert_eq!(r.syncs_to_ignore, 0);
    assert_eq!(r.step(Event::Sync), Step::Unfinished(MissingField::X));
    assert_eq!(r, ToolReconstructor::default());
}

#[test]
fn touch_presence_is_ignored() {
    let out = run(&[
        Event::ToolAdded(ToolKind::Pen),
        Event::Movement(Movement::X(5)),
        Event::Movement(Movement::Y(6)),
        Event::ToolAdded(ToolKind::Touch),
        Event::ToolRemoved(ToolKind::Touch),
        Event::Sync,
    ]);
    assert_eq!(out.len(), 1);
    assert!(matches!(out[0], ToolEvent::Update(t) if t.point == Point { x: 5, y: 6 }));
}

#[test]
fn new_tool_clears_fields() {
    let out = run(&[
        Event::ToolAdded(ToolKind::Pen),
        Event::Movement(Movement::X(5)),
        Event::Movement(Movement::Y(6)),
        Event::ToolAdded(ToolKind::Stylus),
        Event::Movement(Movement::X(9)),
        Event::Sync,
    ]);
    assert_eq!(out, vec![]);
}

#[test]
fn one_removed_per_non_touch_removal() {
    let out = run(&[
        Event::ToolAdded(ToolKind::Pen),
        Event::ToolRemoved(ToolKind::Pen),
        Event::Sync,
        Event::ToolRemoved(ToolKind::Touch),
        Event::Sync,
        Event::ToolAdded(ToolKind::Rubber),
        Event::Movement(Movement::X(2)),
        Event::Movement(Movement::Y(3)),
        Event::Sync,
        Event::ToolRemoved(ToolKind::Rubber),
        Event::ToolRemoved(ToolKind::Stylus),
        Event::Sync,
        Event::Sync,
    ]);
    let removed = out.iter().filter(|e| **e == ToolEvent::Removed).count();
    assert_eq!(removed, 3);
    assert_eq!(out.len(), 4);
}
