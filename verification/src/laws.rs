//! The laws of the translator, stated and proved over the model: what each
//! event kind produces, how the output channel is chosen, and how a block's
//! output relates to its input sequence.

use vstd::prelude::*;
use crate::config::{ChannelMode, Config, MappingKind};
use crate::event::EventModel;
use crate::translator::{
    event_output, output_channel, program_for_note, translate_event_model, translate_model,
};

verus! {

/// Direct mapping: a Note-On with note `n <= max_note` yields exactly one
/// Program Change with program `n`, the same timing, and the channel the
/// channel mode selects; a Note-On above `max_note` yields nothing.
pub proof fn lemma_direct_mapping(cfg: Config, timing: int, channel: int, note: int, velocity: int)
    requires
        cfg.wf(),
        cfg.mapping == MappingKind::Direct,
    ensures
        note <= cfg.max_note ==> translate_event_model(
            cfg,
            EventModel::NoteOn { timing, channel, note, velocity },
        ) == Some(EventModel::ProgramChange {
            timing,
            channel: output_channel(cfg, channel),
            program: note,
        }),
        note > cfg.max_note ==> translate_event_model(
            cfg,
            EventModel::NoteOn { timing, channel, note, velocity },
        ) is None,
{
}

/// Offset mapping: a Note-On with `base_note <= n` and
/// `n - base_note <= max_note` yields exactly one Program Change with
/// program `n - base_note`, the same timing, and the channel the channel
/// mode selects; a Note-On outside that window yields nothing.
pub proof fn lemma_offset_mapping(cfg: Config, timing: int, channel: int, note: int, velocity: int)
    requires
        cfg.wf(),
        cfg.mapping == MappingKind::Offset,
    ensures
        cfg.base_note <= note && note - cfg.base_note <= cfg.max_note ==> translate_event_model(
            cfg,
            EventModel::NoteOn { timing, channel, note, velocity },
        ) == Some(EventModel::ProgramChange {
            timing,
            channel: output_channel(cfg, channel),
            program: note - cfg.base_note,
        }),
        note < cfg.base_note || note - cfg.base_note > cfg.max_note ==> translate_event_model(
            cfg,
            EventModel::NoteOn { timing, channel, note, velocity },
        ) is None,
{
}

/// A Note-Off never produces output, whatever its note, channel, velocity,
/// timing or the configuration.
pub proof fn lemma_note_off_dropped(
    cfg: Config,
    timing: int,
    channel: int,
    note: int,
    velocity: int,
)
    ensures
        translate_event_model(
            cfg,
            EventModel::NoteOff { timing, channel, note, velocity },
        ) is None,
{
}

/// A non-note event is forwarded unchanged exactly when
/// `pass_through_other_events` is set, and dropped otherwise.
pub proof fn lemma_pass_through(cfg: Config, e: EventModel)
    requires
        e !is NoteOn,
        e !is NoteOff,
    ensures
        cfg.pass_through_other_events ==> translate_event_model(cfg, e) == Some(e),
        !cfg.pass_through_other_events ==> translate_event_model(cfg, e) is None,
{
}

/// Channel selection: a converted Note-On keeps its own channel under
/// `Auto`, and carries the fixed channel `k` under `Fixed(k)`, whatever its
/// input channel.
pub proof fn lemma_channel_mode(
    cfg: Config,
    timing: int,
    channel: int,
    note: int,
    velocity: int,
    program: int,
)
    requires
        cfg.wf(),
        program_for_note(cfg, note) == Some(program),
    ensures
        translate_event_model(cfg, EventModel::NoteOn { timing, channel, note, velocity })
            == Some(EventModel::ProgramChange {
            timing,
            channel: output_channel(cfg, channel),
            program,
        }),
        cfg.channel_mode is Auto ==> output_channel(cfg, channel) == channel,
        cfg.channel_mode matches ChannelMode::Fixed(k) ==> output_channel(cfg, channel) == k,
{
}

/// A single event's block output is exactly what its classification
/// contributes: the empty sequence, or that one event.
pub proof fn lemma_translate_singleton(cfg: Config, e: EventModel)
    ensures
        translate_model(cfg, seq![e]) == event_output(translate_event_model(cfg, e)),
{
    let s = seq![e];
    assert(s.last() == e);
    assert(s.drop_last() =~= Seq::<EventModel>::empty());
    assert(translate_model(cfg, s) == translate_model(cfg, Seq::<EventModel>::empty())
        + event_output(translate_event_model(cfg, e)));
    assert(Seq::<EventModel>::empty() + event_output(translate_event_model(cfg, e))
        =~= event_output(translate_event_model(cfg, e)));
}

/// Ordering: translation distributes over concatenation, so the outputs of
/// an earlier stretch of input all precede the outputs of a later stretch —
/// no output is ever reordered across its generating inputs.
pub proof fn lemma_translate_append(cfg: Config, s1: Seq<EventModel>, s2: Seq<EventModel>)
    ensures
        translate_model(cfg, s1 + s2) == translate_model(cfg, s1) + translate_model(cfg, s2),
    decreases s2.len(),
{
    if s2.len() == 0 {
        assert(s1 + s2 =~= s1);
        assert(translate_model(cfg, s1) + translate_model(cfg, s2) =~= translate_model(cfg, s1));
    } else {
        lemma_translate_append(cfg, s1, s2.drop_last());
        assert((s1 + s2).drop_last() =~= s1 + s2.drop_last());
        assert((s1 + s2).last() == s2.last());
        assert(translate_model(cfg, s1) + (translate_model(cfg, s2.drop_last()) + event_output(
            translate_event_model(cfg, s2.last()),
        )) =~= (translate_model(cfg, s1) + translate_model(cfg, s2.drop_last())) + event_output(
            translate_event_model(cfg, s2.last()),
        ));
    }
}

/// Purity: the translation of a block is a function of the configuration
/// and the input sequence alone, so two translations of the same input
/// under the same configuration agree.
pub proof fn lemma_translate_deterministic(
    cfg: Config,
    s: Seq<EventModel>,
    out1: Seq<EventModel>,
    out2: Seq<EventModel>,
)
    requires
        out1 == translate_model(cfg, s),
        out2 == translate_model(cfg, s),
    ensures
        out1 == out2,
{
}

} // verus!
