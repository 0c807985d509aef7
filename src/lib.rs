use vstd::prelude::*;

pub mod event_source;
pub mod framing;
pub mod raw_event;
pub mod tool_events;

pub use event_source::EventSourceError;
pub use raw_event::RawEvent;
use raw_event::{le16, le32, raw_of, lemma_le_bounds};
pub use tool_events::{MissingField, Step, ToolBuilder, ToolEvent, ToolReconstructor};

verus! {

/// Errors of a tool event stream.
#[derive(Debug)]
pub enum Error {
    /// A Sync arrived before the tool could be completed.
    UnfinishedTool { kind: ToolKind, error: MissingField },
    /// The raw record is not (yet) supported by this library.
    UnknownEventRead(UnknownEvent),
    /// An event that the stream did not expect.
    UnexpectedEvent(String),
    /// Reading the byte source failed.
    Io(std::io::Error),
}

impl From<UnknownEvent> for Error {
    fn from(e: UnknownEvent) -> (r: Error)
        ensures
            r == Error::UnknownEventRead(e),
    {
        Error::UnknownEventRead(e)
    }
}

impl vstd::std_specs::convert::FromSpecImpl<UnknownEvent> for Error {
    open spec fn obeys_from_spec() -> bool {
        true
    }

    open spec fn from_spec(e: UnknownEvent) -> Error {
        Error::UnknownEventRead(e)
    }
}

/// A finished tool sample: kind, position, tilt and height classification.
#[derive(Debug, Clone, Copy, PartialEq, Eq, Hash, Structural)]
pub struct Tool {
    pub kind: ToolKind,
    pub point: Point,
    pub tilt_x: Option<i32>,
    pub tilt_y: Option<i32>,
    pub height: Height,
}

/// How far the tool is from the surface.
#[derive(Debug, Clone, Copy, PartialEq, Eq, Hash, Structural)]
pub enum Height {
    Missing,
    Distance(u32),
    Touching(u32),
}

#[derive(Debug, Clone, Copy, PartialEq, Eq, Hash, Structural)]
pub struct Point {
    pub x: u32,
    pub y: u32,
}

#[derive(Debug, Clone, Copy, PartialEq, Eq, Hash, Structural)]
pub enum ToolKind {
    Pen,
    Rubber,
    Touch,
    Stylus,
    Stylus2,
}

/// The key code under which the device reports each tool kind.
pub open spec fn kind_code(k: ToolKind) -> u16 {
    match k {
        ToolKind::Pen => 320,
        ToolKind::Rubber => 321,
        ToolKind::Touch => 330,
        ToolKind::Stylus => 331,
        ToolKind::Stylus2 => 332,
    }
}

/// The tool kind reported under a key code, if any.
pub open spec fn kind_of_code(code: u16) -> Option<ToolKind> {
    if code == 320 {
        Some(ToolKind::Pen)
    } else if code == 321 {
        Some(ToolKind::Rubber)
    } else if code == 330 {
        Some(ToolKind::Touch)
    } else if code == 331 {
        Some(ToolKind::Stylus)
    } else if code == 332 {
        Some(ToolKind::Stylus2)
    } else {
        None
    }
}

impl ToolKind {
    pub fn from_code(code: u16) -> (r: Option<ToolKind>)
        ensures
            r == kind_of_code(code),
            r matches Some(k) ==> kind_code(k) == code,
    {
        match code {
            320 => Some(ToolKind::Pen),
            321 => Some(ToolKind::Rubber),
            330 => Some(ToolKind::Touch),
            331 => Some(ToolKind::Stylus),
            332 => Some(ToolKind::Stylus2),
            _ => None,
        }
    }

    /// The kind's name, as it is printed.
    pub fn name(&self) -> (r: &'static str)
        ensures
            r@ == kind_name(*self),
    {
        match self {
            ToolKind::Pen => "Pen",
            ToolKind::Rubber => "Rubber",
            ToolKind::Touch => "Touch",
            ToolKind::Stylus => "Stylus",
            ToolKind::Stylus2 => "Stylus2",
        }
    }
}

pub open spec fn kind_name(k: ToolKind) -> Seq<char> {
    match k {
        ToolKind::Pen => "Pen"@,
        ToolKind::Rubber => "Rubber"@,
        ToolKind::Touch => "Touch"@,
        ToolKind::Stylus => "Stylus"@,
        ToolKind::Stylus2 => "Stylus2"@,
    }
}

/// One axis sample.
#[derive(Debug, Clone, Copy, PartialEq, Eq, Hash, Structural)]
pub enum Movement {
    X(u32),
    Y(u32),
    TiltX(i32),
    TiltY(i32),
    Pressure(u32),
    Distance(u32),
}

/// A low-level event, as classified from one raw record.
#[derive(Debug, Clone, Copy, PartialEq, Eq, Structural)]
pub enum Event {
    Sync,
    ToolAdded(ToolKind),
    ToolRemoved(ToolKind),
    Movement(Movement),
}

/// Why a raw record could not be classified.
#[derive(Debug, Clone, Copy, PartialEq, Eq, Structural)]
pub enum UnknownEvent {
    ToolCode(u16),
    ToolValue(u32),
    MovementCode(u16),
    Type(RawEvent),
}

/// The classification of a raw record.
pub open spec fn classify(ev: RawEvent) -> Result<Event, UnknownEvent> {
    if ev.typ == 0 {
        Ok(Event::Sync)
    } else if ev.typ == 1 {
        match kind_of_code(ev.code) {
            None => Err(UnknownEvent::ToolCode(ev.code)),
            Some(k) => if ev.value == 0 {
                Ok(Event::ToolRemoved(k))
            } else if ev.value == 1 {
                Ok(Event::ToolAdded(k))
            } else {
                Err(UnknownEvent::ToolValue(ev.value))
            },
        }
    } else if ev.typ == 3 {
        if ev.code == 0 {
            Ok(Event::Movement(Movement::Y(ev.value)))
        } else if ev.code == 1 {
            Ok(Event::Movement(Movement::X(ev.value)))
        } else if ev.code == 24 {
            Ok(Event::Movement(Movement::Pressure(ev.value)))
        } else if ev.code == 25 {
            Ok(Event::Movement(Movement::Distance(ev.value)))
        } else if ev.code == 26 {
            Ok(Event::Movement(Movement::TiltX(ev.value as i32)))
        } else if ev.code == 27 {
            Ok(Event::Movement(Movement::TiltY(ev.value as i32)))
        } else {
            Err(UnknownEvent::MovementCode(ev.code))
        }
    } else {
        Err(UnknownEvent::Type(ev))
    }
}

impl Event {
    /// Classifies a raw record; unknown types, codes and values are errors.
    pub fn try_from(ev: RawEvent) -> (r: Result<Event, UnknownEvent>)
        ensures
            r == classify(ev),
    {
        match ev.typ {
            0 => Ok(Event::Sync),
            1 => {
                let tool = match ToolKind::from_code(ev.code) {
                    Some(k) => k,
                    None => return Err(UnknownEvent::ToolCode(ev.code)),
                };
                match ev.value {
                    0 => Ok(Event::ToolRemoved(tool)),
                    1 => Ok(Event::ToolAdded(tool)),
                    v => Err(UnknownEvent::ToolValue(v)),
                }
            },
            3 => match ev.code {
                0 => Ok(Event::Movement(Movement::Y(ev.value))),
                1 => Ok(Event::Movement(Movement::X(ev.value))),
                24 => Ok(Event::Movement(Movement::Pressure(ev.value))),
                25 => Ok(Event::Movement(Movement::Distance(ev.value))),
                26 => Ok(Event::Movement(Movement::TiltX(ev.value as i32))),
                27 => Ok(Event::Movement(Movement::TiltY(ev.value as i32))),
                _ => Err(UnknownEvent::MovementCode(ev.code)),
            },
            _ => Err(UnknownEvent::Type(ev)),
        }
    }
}

/// The raw code under which each axis is reported.
pub open spec fn movement_code(m: Movement) -> u16 {
    match m {
        Movement::Y(_) => 0,
        Movement::X(_) => 1,
        Movement::Pressure(_) => 24,
        Movement::Distance(_) => 25,
        Movement::TiltX(_) => 26,
        Movement::TiltY(_) => 27,
    }
}

/// The raw 32-bit value that an axis sample carries.
pub open spec fn movement_value(m: Movement) -> u32 {
    match m {
        Movement::X(n) => n,
        Movement::Y(n) => n,
        Movement::Pressure(n) => n,
        Movement::Distance(n) => n,
        Movement::TiltX(n) => n as u32,
        Movement::TiltY(n) => n as u32,
    }
}

/// Decoding then classifying loses nothing: each event that 16 bytes give
/// carries back the type, code and value that the bytes hold (a Sync its
/// type alone), and each record of a known shape gives an event.
pub proof fn lemma_decode_classify_lossless(b: Seq<u8>)
    requires
        b.len() == 16,
    ensures
        ({
            let typ = le16(b, 8);
            let code = le16(b, 10);
            let value = le32(b, 12);
            &&& (classify(raw_of(b)) == Ok::<Event, UnknownEvent>(Event::Sync) <==> typ == 0)
            &&& (classify(raw_of(b)) matches Ok(Event::ToolAdded(k)) ==> typ == 1 && code
                == kind_code(k) && value == 1)
            &&& (classify(raw_of(b)) matches Ok(Event::ToolRemoved(k)) ==> typ == 1 && code
                == kind_code(k) && value == 0)
            &&& (classify(raw_of(b)) matches Ok(Event::Movement(m)) ==> typ == 3 && code
                == movement_code(m) && value == movement_value(m))
            &&& (typ == 1 && kind_of_code(code as u16) is Some && (value == 0 || value == 1)
                ==> classify(raw_of(b)) is Ok)
            &&& (typ == 3 && (code == 0 || code == 1 || (24 <= code <= 27)) ==> classify(
                raw_of(b),
            ) is Ok)
        }),
{
    lemma_le_bounds(b, 8);
    lemma_le_bounds(b, 12);
    let v = raw_of(b).value;
    assert((v as i32) as u32 == v) by (bit_vector);
}

} // verus!
