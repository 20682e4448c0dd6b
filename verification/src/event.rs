//! The MIDI events the translator consumes and produces, as a closed tagged
//! variant, together with their mathematical model.
//!
//! Only the fields the translator reads are represented: kind, sample-offset
//! timing, channel, note number and velocity. Every other event kind is
//! carried as an opaque payload that is forwarded or dropped unchanged.

use vstd::prelude::*;

verus! {

/// A MIDI event, tagged with its sample-accurate position within the
/// current processing block.
#[derive(PartialEq, Debug)]
pub enum MidiEvent {
    /// A note starts: `note` and `velocity` in `0..=127`.
    NoteOn { timing: u32, channel: u8, note: u8, velocity: u8 },
    /// A note ends; carries no information a Program Change could express.
    NoteOff { timing: u32, channel: u8, note: u8, velocity: u8 },
    /// Select program `program` (`0..=127`) on `channel`.
    ProgramChange { timing: u32, channel: u8, program: u8 },
    /// Any other event kind (control change, pitch bend, ...), carried as an
    /// opaque payload the translator never interprets.
    Other { timing: u32, channel: u8, payload: Vec<u8> },
}

/// The mathematical model of a [`MidiEvent`].
pub enum EventModel {
    NoteOn { timing: int, channel: int, note: int, velocity: int },
    NoteOff { timing: int, channel: int, note: int, velocity: int },
    ProgramChange { timing: int, channel: int, program: int },
    Other { timing: int, channel: int, payload: Seq<u8> },
}

impl View for MidiEvent {
    type V = EventModel;

    open spec fn view(&self) -> EventModel {
        match *self {
            MidiEvent::NoteOn { timing, channel, note, velocity } => (EventModel::NoteOn {
                timing: timing as int,
                channel: channel as int,
                note: note as int,
                velocity: velocity as int,
            }),
            MidiEvent::NoteOff { timing, channel, note, velocity } => (EventModel::NoteOff {
                timing: timing as int,
                channel: channel as int,
                note: note as int,
                velocity: velocity as int,
            }),
            MidiEvent::ProgramChange { timing, channel, program } => (EventModel::ProgramChange {
                timing: timing as int,
                channel: channel as int,
                program: program as int,
            }),
            MidiEvent::Other { timing, channel, ref payload } => (EventModel::Other {
                timing: timing as int,
                channel: channel as int,
                payload: payload@,
            }),
        }
    }
}

impl Clone for MidiEvent {
    /// A clone carries the same model; an opaque payload is copied
    /// byte for byte.
    fn clone(&self) -> (r: MidiEvent)
        ensures
            r@ == self@,
    {
        match self {
            MidiEvent::NoteOn { timing, channel, note, velocity } => (MidiEvent::NoteOn {
                timing: *timing,
                channel: *channel,
                note: *note,
                velocity: *velocity,
            }),
            MidiEvent::NoteOff { timing, channel, note, velocity } => (MidiEvent::NoteOff {
                timing: *timing,
                channel: *channel,
                note: *note,
                velocity: *velocity,
            }),
            MidiEvent::ProgramChange { timing, channel, program } => (MidiEvent::ProgramChange {
                timing: *timing,
                channel: *channel,
                program: *program,
            }),
            MidiEvent::Other { timing, channel, payload } => {
                let copy: Vec<u8> = payload.clone();
                proof {
                    assert(copy@ =~= payload@);
                }
                MidiEvent::Other { timing: *timing, channel: *channel, payload: copy }
            },
        }
    }
}

/// The models of a sequence of events, in order.
pub open spec fn views_of(s: Seq<MidiEvent>) -> Seq<EventModel> {
    s.map_values(|e: MidiEvent| e@)
}

/// The model of an optional event.
pub open spec fn view_of_opt(o: Option<MidiEvent>) -> Option<EventModel> {
    match o {
        Some(e) => Some(e@),
        None => None,
    }
}

} // verus!
