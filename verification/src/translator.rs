//! The event-translation engine: per-event classification, the
//! note-to-program mapping, channel selection and the pass-through policy,
//! and the per-block translation over an ordered sequence of events.

use vstd::prelude::*;
use crate::config::{ChannelMode, Config, MappingKind};
use crate::event::{views_of, view_of_opt, EventModel, MidiEvent};

verus! {

/// The program number a Note-On with this note maps to, or `None` when the
/// note lies outside the convertible window and the event is dropped.
pub open spec fn program_for_note(cfg: Config, note: int) -> Option<int>
    recommends
        cfg.wf(),
{
    match cfg.mapping {
        MappingKind::Direct => if note <= cfg.max_note {
            Some(note)
        } else {
            None
        },
        MappingKind::Offset => if cfg.base_note <= note && note - cfg.base_note <= cfg.max_note {
            Some(note - cfg.base_note)
        } else {
            None
        },
    }
}

/// The channel an emitted Program Change carries, given the channel of the
/// triggering Note-On.
pub open spec fn output_channel(cfg: Config, input_channel: int) -> int {
    match cfg.channel_mode {
        ChannelMode::Auto => input_channel,
        ChannelMode::Fixed(k) => k as int,
    }
}

/// What a single input event becomes: one output event, or nothing.
pub open spec fn translate_event_model(cfg: Config, e: EventModel) -> Option<EventModel> {
    match e {
        EventModel::NoteOn { timing, channel, note, velocity } => match program_for_note(
            cfg,
            note,
        ) {
            Some(p) => Some(EventModel::ProgramChange {
                timing,
                channel: output_channel(cfg, channel),
                program: p,
            }),
            None => None,
        },
        EventModel::NoteOff { .. } => None,
        _ => if cfg.pass_through_other_events {
            Some(e)
        } else {
            None
        },
    }
}

/// The output a single classification contributes: an empty sequence or a
/// singleton.
pub open spec fn event_output(o: Option<EventModel>) -> Seq<EventModel> {
    match o {
        Some(e) => seq![e],
        None => Seq::empty(),
    }
}

/// The whole block's output: each input event, in order, contributes zero or
/// one output events.
pub open spec fn translate_model(cfg: Config, s: Seq<EventModel>) -> Seq<EventModel>
    decreases s.len(),
{
    if s.len() == 0 {
        Seq::empty()
    } else {
        translate_model(cfg, s.drop_last()) + event_output(
            translate_event_model(cfg, s.last()),
        )
    }
}

/// Map one note number to its program number, or `None` outside the
/// convertible window.
pub fn program_candidate(cfg: &Config, note: u8) -> (p: Option<u8>)
    requires
        cfg.wf(),
    ensures
        (match p {
            Some(v) => Some(v as int),
            None => None,
        }) == program_for_note(*cfg, note as int),
{
    match cfg.mapping {
        MappingKind::Direct => if note <= cfg.max_note {
            Some(note)
        } else {
            None
        },
        MappingKind::Offset => if cfg.base_note <= note && note - cfg.base_note <= cfg.max_note {
            Some(note - cfg.base_note)
        } else {
            None
        },
    }
}

/// Classify one event: a convertible Note-On becomes a Program Change with
/// the same timing, a Note-Off is dropped, and any other event is forwarded
/// unchanged exactly when the configuration says so.
pub fn translate_event(cfg: &Config, e: &MidiEvent) -> (out: Option<MidiEvent>)
    requires
        cfg.wf(),
    ensures
        view_of_opt(out) == translate_event_model(*cfg, e@),
{
    match e {
        MidiEvent::NoteOn { timing, channel, note, .. } => {
            match program_candidate(cfg, *note) {
                Some(p) => {
                    let ch: u8 = match cfg.channel_mode {
                        ChannelMode::Auto => *channel,
                        ChannelMode::Fixed(k) => k,
                    };
                    Some(MidiEvent::ProgramChange { timing: *timing, channel: ch, program: p })
                },
                None => None,
            }
        },
        MidiEvent::NoteOff { .. } => None,
        passed => {
            if cfg.pass_through_other_events {
                Some(passed.clone())
            } else {
                None
            }
        },
    }
}

/// Translate one block of events.
///
/// The configuration is saturated into its domain first, so an unclamped
/// snapshot is never trusted. The output is exactly the model translation of
/// the input sequence under the clamped configuration: outputs keep the
/// relative order of the inputs that produced them, and each input yields at
/// most one output.
pub fn translate(cfg: &Config, events: &Vec<MidiEvent>) -> (out: Vec<MidiEvent>)
    ensures
        views_of(out@) == translate_model(cfg.spec_clamped(), views_of(events@)),
{
    let c = cfg.clamped();
    let mut out: Vec<MidiEvent> = Vec::new();
    let mut i: usize = 0;
    while i < events.len()
        invariant
            c == cfg.spec_clamped(),
            c.wf(),
            i <= events.len(),
            views_of(out@) == translate_model(c, views_of(events@).take(i as int)),
        decreases events.len() - i,
    {
        let ghost prev: Seq<EventModel> = views_of(out@);
        match translate_event(&c, &events[i]) {
            Some(e) => {
                out.push(e);
                proof {
                    assert(views_of(out@) =~= prev + event_output(
                        translate_event_model(c, events@[i as int]@),
                    ));
                }
            },
            None => {
                proof {
                    assert(prev + event_output(translate_event_model(c, events@[i as int]@))
                        =~= prev);
                }
            },
        }
        proof {
            let vs = views_of(events@);
            assert(vs.take(i + 1).drop_last() =~= vs.take(i as int));
            assert(vs.take(i + 1).last() == vs[i as int]);
        }
        i = i + 1;
    }
    proof {
        assert(views_of(events@).take(events@.len() as int) =~= views_of(events@));
    }
    out
}

} // verus!
