use vstd::prelude::*;

use crate::{Event, Height, Movement, Point, Tool, ToolKind};

verus! {

/// What crosses the wire: a full tool sample, or the tool leaving.
#[derive(Debug, Clone, Copy, PartialEq, Eq, Hash, Structural)]
pub enum ToolEvent {
    Update(Tool),
    Removed,
}

/// The field that kept a builder from finishing a tool.
#[derive(Debug, Clone, Copy, PartialEq, Eq, Hash, Structural)]
pub enum MissingField {
    X,
    Y,
    Kind,
}

/// The height classification: near the surface and pressed hard is touching.
pub open spec fn height_of(pressure: Option<u32>, distance: Option<u32>) -> Height {
    match (pressure, distance) {
        (Some(p), Some(d)) => if d < 10 && 700 < p {
            Height::Touching(p)
        } else {
            Height::Distance(d)
        },
        (Some(p), None) => Height::Touching(p),
        (None, Some(d)) => Height::Distance(d),
        (None, None) => Height::Missing,
    }
}

/// The fields of a tool gathered so far within one sample.
#[derive(Debug, Clone, Copy, PartialEq, Eq, Structural)]
pub struct ToolBuilder {
    pub kind: Option<ToolKind>,
    pub x: Option<u32>,
    pub y: Option<u32>,
    pub tilt_x: Option<i32>,
    pub tilt_y: Option<i32>,
    pub pressure: Option<u32>,
    pub distance: Option<u32>,
}

impl ToolBuilder {
    /// A builder with no tool and no axis values.
    pub open spec fn empty() -> ToolBuilder {
        ToolBuilder {
            kind: None,
            x: None,
            y: None,
            tilt_x: None,
            tilt_y: None,
            pressure: None,
            distance: None,
        }
    }

    /// No axis value has been gathered.
    pub open spec fn has_no_axes(self) -> bool {
        self.x is None && self.y is None && self.tilt_x is None && self.tilt_y is None
            && self.pressure is None && self.distance is None
    }

    /// The builder after a sample of one axis: that axis takes the new value.
    pub open spec fn with_movement(self, mv: Movement) -> ToolBuilder {
        match mv {
            Movement::X(n) => ToolBuilder { x: Some(n), ..self },
            Movement::Y(n) => ToolBuilder { y: Some(n), ..self },
            Movement::TiltX(n) => ToolBuilder { tilt_x: Some(n), ..self },
            Movement::TiltY(n) => ToolBuilder { tilt_y: Some(n), ..self },
            Movement::Pressure(n) => ToolBuilder { pressure: Some(n), ..self },
            Movement::Distance(n) => ToolBuilder { distance: Some(n), ..self },
        }
    }

    /// The finished tool: X, Y and kind are needed, in that order.
    pub open spec fn finished(self) -> Result<Tool, MissingField> {
        if self.x is None {
            Err(MissingField::X)
        } else if self.y is None {
            Err(MissingField::Y)
        } else if self.kind is None {
            Err(MissingField::Kind)
        } else {
            Ok(
                Tool {
                    kind: self.kind->Some_0,
                    point: Point { x: self.x->Some_0, y: self.y->Some_0 },
                    tilt_x: self.tilt_x,
                    tilt_y: self.tilt_y,
                    height: height_of(self.pressure, self.distance),
                },
            )
        }
    }

    pub fn new() -> (r: ToolBuilder)
        ensures
            r == ToolBuilder::empty(),
    {
        ToolBuilder {
            kind: None,
            x: None,
            y: None,
            tilt_x: None,
            tilt_y: None,
            pressure: None,
            distance: None,
        }
    }

    /// Starts over with a new tool: all axis values are dropped.
    pub fn reset(&mut self, kind: ToolKind)
        ensures
            *final(self) == (ToolBuilder { kind: Some(kind), ..ToolBuilder::empty() }),
    {
        self.kind = Some(kind);
        self.x = None;
        self.y = None;
        self.tilt_y = None;
        self.tilt_x = None;
        self.pressure = None;
        self.distance = None;
    }

    /// Records one axis sample; the latest value of each axis wins.
    pub fn apply_movement(&mut self, mv: Movement)
        ensures
            *final(self) == old(self).with_movement(mv),
    {
        match mv {
            Movement::X(n) => self.x = Some(n),
            Movement::Y(n) => self.y = Some(n),
            Movement::TiltX(n) => self.tilt_x = Some(n),
            Movement::TiltY(n) => self.tilt_y = Some(n),
            Movement::Pressure(n) => self.pressure = Some(n),
            Movement::Distance(n) => self.distance = Some(n),
        }
    }

    /// Finishes the tool, or names the first field that is missing.
    pub fn construct(&self) -> (r: Result<Tool, MissingField>)
        ensures
            r == self.finished(),
            r is Ok <==> (self.x is Some && self.y is Some && self.kind is Some),
    {
        let x = match self.x {
            Some(x) => x,
            None => return Err(MissingField::X),
        };
        let y = match self.y {
            Some(y) => y,
            None => return Err(MissingField::Y),
        };
        let kind = match self.kind {
            Some(k) => k,
            None => return Err(MissingField::Kind),
        };
        let height = match (self.pressure, self.distance) {
            (Some(pressure), Some(distance)) => {
                if distance < 10 && 700 < pressure {
                    Height::Touching(pressure)
                } else {
                    Height::Distance(distance)
                }
            },
            (Some(pressure), None) => Height::Touching(pressure),
            (None, Some(distance)) => Height::Distance(distance),
            (None, None) => Height::Missing,
        };
        Ok(
            Tool {
                kind,
                point: Point { x, y },
                tilt_x: self.tilt_x,
                tilt_y: self.tilt_y,
                height,
            },
        )
    }
}

impl Default for ToolBuilder {
    fn default() -> (r: ToolBuilder)
        ensures
            r == ToolBuilder::empty(),
    {
        ToolBuilder::new()
    }
}

/// What one low-level event led to.
#[derive(Debug, Clone, Copy, PartialEq, Eq, Structural)]
pub enum Step {
    /// A tool event to hand on.
    Emit(ToolEvent),
    /// Nothing to report.
    Quiet,
    /// A Sync closed a sample that could not be finished; nothing is emitted.
    Unfinished(MissingField),
}

/// Rebuilds tool events from low-level events, one event at a time.
#[derive(Debug, Clone, Copy, PartialEq, Eq, Structural)]
pub struct ToolReconstructor {
    /// Syncs still to be taken as housekeeping after a removal.
    pub syncs_to_ignore: usize,
    pub builder: ToolBuilder,
}

impl ToolReconstructor {
    /// The initial state: no tool, no axis values, no Sync to skip.
    pub open spec fn initial() -> ToolReconstructor {
        ToolReconstructor { syncs_to_ignore: 0, builder: ToolBuilder::empty() }
    }

    /// The next state and the outcome of one event.
    pub open spec fn next_state(self, ev: Event) -> (ToolReconstructor, Step) {
        match ev {
            Event::ToolAdded(ToolKind::Touch) => (self, Step::Quiet),
            Event::ToolRemoved(ToolKind::Touch) => (self, Step::Quiet),
            Event::ToolAdded(k) => (
                ToolReconstructor {
                    builder: ToolBuilder { kind: Some(k), ..ToolBuilder::empty() },
                    ..self
                },
                Step::Quiet,
            ),
            Event::ToolRemoved(_) => (
                ToolReconstructor {
                    syncs_to_ignore: if self.syncs_to_ignore < usize::MAX {
                        (self.syncs_to_ignore + 1) as usize
                    } else {
                        self.syncs_to_ignore
                    },
                    builder: ToolBuilder::empty(),
                },
                Step::Emit(ToolEvent::Removed),
            ),
            Event::Movement(mv) => (
                ToolReconstructor { builder: self.builder.with_movement(mv), ..self },
                Step::Quiet,
            ),
            Event::Sync => if self.syncs_to_ignore > 0 {
                (
                    ToolReconstructor {
                        syncs_to_ignore: (self.syncs_to_ignore - 1) as usize,
                        ..self
                    },
                    Step::Quiet,
                )
            } else {
                match self.builder.finished() {
                    Ok(t) => (self, Step::Emit(ToolEvent::Update(t))),
                    Err(m) => (self, Step::Unfinished(m)),
                }
            },
        }
    }

    pub fn new() -> (r: ToolReconstructor)
        ensures
            r == ToolReconstructor::initial(),
    {
        ToolReconstructor { syncs_to_ignore: 0, builder: ToolBuilder::new() }
    }

    /// Takes one low-level event in arrival order.
    pub fn step(&mut self, ev: Event) -> (r: Step)
        ensures
            (*final(self), r) == old(self).next_state(ev),
    {
        match ev {
            Event::ToolAdded(ToolKind::Touch) => Step::Quiet,
            Event::ToolRemoved(ToolKind::Touch) => Step::Quiet,
            Event::Movement(mv) => {
                self.builder.apply_movement(mv);
                Step::Quiet
            },
            Event::ToolRemoved(_) => {
                if self.syncs_to_ignore < usize::MAX {
                    self.syncs_to_ignore = self.syncs_to_ignore + 1;
                }
                self.builder = ToolBuilder::new();
                Step::Emit(ToolEvent::Removed)
            },
            Event::Sync => {
                if self.syncs_to_ignore > 0 {
                    self.syncs_to_ignore = self.syncs_to_ignore - 1;
                    Step::Quiet
                } else {
                    match self.builder.construct() {
                        Ok(tool) => Step::Emit(ToolEvent::Update(tool)),
                        Err(m) => Step::Unfinished(m),
                    }
                }
            },
            Event::ToolAdded(kind) => {
                self.builder.reset(kind);
                Step::Quiet
            },
        }
    }
}

impl Default for ToolReconstructor {
    fn default() -> (r: ToolReconstructor)
        ensures
            r == ToolReconstructor::initial(),
    {
        ToolReconstructor::new()
    }
}

/// Once pressure and distance are both known, the height follows one fixed
/// rule: closer than 10 and pressed harder than 700 is touching at that
/// pressure, anything else is that distance.
pub proof fn lemma_height_rule(b: ToolBuilder, pressure: u32, distance: u32)
    requires
        b.x is Some,
        b.y is Some,
        b.kind is Some,
        b.pressure == Some(pressure),
        b.distance == Some(distance),
    ensures
        b.finished() matches Ok(t) && t.height == (if distance < 10 && pressure > 700 {
            Height::Touching(pressure)
        } else {
            Height::Distance(distance)
        }),
{
}

/// A Sync that finds no tool and no axis value emits no tool event.
pub proof fn lemma_idle_sync_emits_nothing(s: ToolReconstructor)
    requires
        s.builder.kind is None,
        s.builder.has_no_axes(),
    ensures
        !(s.next_state(Event::Sync).1 is Emit),
{
}

/// `Removed` is emitted on exactly the events that remove a tool other than
/// Touch, and on no other event.
pub proof fn lemma_removed_only_on_removal(s: ToolReconstructor, ev: Event)
    ensures
        s.next_state(ev).1 == Step::Emit(ToolEvent::Removed) <==> (ev matches Event::ToolRemoved(k)
            && k != ToolKind::Touch),
{
}

/// The removal of a tool other than Touch emits `Removed` at once and takes
/// exactly the next Sync as housekeeping: that Sync emits nothing, and the
/// one after it is again a sample boundary.
pub proof fn lemma_removal_skips_one_sync(s: ToolReconstructor, k: ToolKind)
    requires
        k != ToolKind::Touch,
        s.syncs_to_ignore == 0,
    ensures
        s.next_state(Event::ToolRemoved(k)).1 == Step::Emit(ToolEvent::Removed),
        s.next_state(Event::ToolRemoved(k)).0.next_state(Event::Sync).1 == Step::Quiet,
        s.next_state(Event::ToolRemoved(k)).0.next_state(Event::Sync).0
            == ToolReconstructor::initial(),
{
}

/// The outcomes of a run of events, in order, from state `s`.
pub open spec fn outcomes(s: ToolReconstructor, evs: Seq<Event>) -> Seq<Step>
    decreases evs.len(),
{
    if evs.len() == 0 {
        Seq::empty()
    } else {
        seq![s.next_state(evs[0]).1].add(outcomes(s.next_state(evs[0]).0, evs.drop_first()))
    }
}

/// How many events of `evs` remove a tool other than Touch.
pub open spec fn removal_count(evs: Seq<Event>) -> nat
    decreases evs.len(),
{
    if evs.len() == 0 {
        0
    } else {
        (if evs[0] matches Event::ToolRemoved(k) && k != ToolKind::Touch {
            1nat
        } else {
            0nat
        }) + removal_count(evs.drop_first())
    }
}

/// How many outcomes of `steps` emit `Removed`.
pub open spec fn removed_count(steps: Seq<Step>) -> nat
    decreases steps.len(),
{
    if steps.len() == 0 {
        0
    } else {
        (if steps[0] == Step::Emit(ToolEvent::Removed) {
            1nat
        } else {
            0nat
        }) + removed_count(steps.drop_first())
    }
}

/// Over any run of events, `Removed` is emitted exactly once for each removal
/// of a tool other than Touch.
pub proof fn lemma_one_removed_per_removal(s: ToolReconstructor, evs: Seq<Event>)
    ensures
        removed_count(outcomes(s, evs)) == removal_count(evs),
    decreases evs.len(),
{
    if evs.len() > 0 {
        let s1 = s.next_state(evs[0]).0;
        lemma_one_removed_per_removal(s1, evs.drop_first());
        lemma_removed_only_on_removal(s, evs[0]);
        let outs = outcomes(s, evs);
        assert(outs.drop_first() =~= outcomes(s1, evs.drop_first()));
    }
}

} // verus!
