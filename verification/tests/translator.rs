use midi_note_to_pc::config::{ChannelMode, Config, MappingKind};
use midi_note_to_pc::event::MidiEvent;
use midi_note_to_pc::translator::{program_candidate, translate, translate_event};

fn direct_cfg() -> Config {
    Config::new(ChannelMode::Auto, MappingKind::Direct, 99, 24, true)
}

fn offset_cfg() -> Config {
    Config::new(ChannelMode::Auto, MappingKind::Offset, 99, 24, true)
}

fn note_on(timing: u32, channel: u8, note: u8) -> MidiEvent {
    MidiEvent::NoteOn { timing, channel, note, velocity: 100 }
}

#[test]
fn direct_maps_note_within_range() {
    let cfg = direct_cfg();
    let out = translate_event(&cfg, &note_on(7, 3, 60));
    assert_eq!(
        out,
        Some(MidiEvent::ProgramChange { timing: 7, channel: 3, program: 60 })
    );
}

#[test]
fn direct_boundary_at_max_note() {
    let cfg = direct_cfg();
    let converted = translate_event(&cfg, &note_on(0, 0, 99));
    assert_eq!(
        converted,
        Some(MidiEvent::ProgramChange { timing: 0, channel: 0, program: 99 })
    );
    let dropped = translate_event(&cfg, &note_on(0, 0, 100));
    assert_eq!(dropped, None);
}

#[test]
fn direct_zero_note_maps_to_program_zero() {
    let cfg = direct_cfg();
    let out = translate_event(&cfg, &note_on(1, 15, 0));
    assert_eq!(
        out,
        Some(MidiEvent::ProgramChange { timing: 1, channel: 15, program: 0 })
    );
}

#[test]
fn offset_maps_window_to_programs() {
    let cfg = offset_cfg();
    assert_eq!(program_candidate(&cfg, 24), Some(0));
    assert_eq!(program_candidate(&cfg, 60), Some(36));
    assert_eq!(program_candidate(&cfg, 123), Some(99));
}

#[test]
fn offset_drops_notes_outside_window() {
    let cfg = offset_cfg();
    assert_eq!(program_candidate(&cfg, 23), None);
    assert_eq!(program_candidate(&cfg, 0), None);
    assert_eq!(program_candidate(&cfg, 124), None);
    assert_eq!(translate_event(&cfg, &note_on(9, 1, 23)), None);
}

#[test]
fn note_off_always_dropped() {
    let configs = [
        direct_cfg(),
        offset_cfg(),
        Config::new(ChannelMode::Fixed(4), MappingKind::Direct, 127, 0, false),
    ];
    for cfg in configs.iter() {
        for note in [0u8, 60, 127] {
            let off = MidiEvent::NoteOff { timing: 33, channel: 9, note, velocity: 64 };
            assert_eq!(translate_event(cfg, &off), None);
        }
    }
}

#[test]
fn pass_through_forwards_other_events_unchanged() {
    let cfg = direct_cfg();
    let cc = MidiEvent::Other { timing: 5, channel: 2, payload: vec![0xB0, 1, 64] };
    assert_eq!(translate_event(&cfg, &cc), Some(cc.clone()));
    let bend = MidiEvent::Other { timing: 8, channel: 0, payload: vec![0xE0, 0, 96] };
    assert_eq!(translate_event(&cfg, &bend), Some(bend.clone()));
    let pc_in = MidiEvent::ProgramChange { timing: 2, channel: 6, program: 12 };
    assert_eq!(translate_event(&cfg, &pc_in), Some(pc_in.clone()));
}

#[test]
fn pass_through_disabled_drops_other_events() {
    let cfg = Config::new(ChannelMode::Auto, MappingKind::Direct, 99, 24, false);
    let cc = MidiEvent::Other { timing: 5, channel: 2, payload: vec![0xB0, 1, 64] };
    assert_eq!(translate_event(&cfg, &cc), None);
    let pc_in = MidiEvent::ProgramChange { timing: 2, channel: 6, program: 12 };
    assert_eq!(translate_event(&cfg, &pc_in), None);
}

#[test]
fn auto_channel_follows_input() {
    let cfg = direct_cfg();
    for channel in [0u8, 7, 15] {
        let out = translate_event(&cfg, &note_on(0, channel, 10));
        assert_eq!(
            out,
            Some(MidiEvent::ProgramChange { timing: 0, channel, program: 10 })
        );
    }
}

#[test]
fn fixed_channel_overrides_input() {
    let cfg = Config::new(ChannelMode::Fixed(5), MappingKind::Direct, 99, 24, true);
    for channel in [0u8, 5, 15] {
        let out = translate_event(&cfg, &note_on(0, channel, 10));
        assert_eq!(
            out,
            Some(MidiEvent::ProgramChange { timing: 0, channel: 5, program: 10 })
        );
    }
}

#[test]
fn ordering_of_outputs_matches_inputs() {
    let cfg = direct_cfg();
    let input = vec![
        note_on(0, 1, 10),
        MidiEvent::Other { timing: 1, channel: 1, payload: vec![0xB0, 7, 100] },
        note_on(2, 1, 20),
        MidiEvent::Other { timing: 3, channel: 1, payload: vec![0xB0, 7, 90] },
        note_on(4, 1, 30),
    ];
    let out = translate(&cfg, &input);
    assert_eq!(
        out,
        vec![
            MidiEvent::ProgramChange { timing: 0, channel: 1, program: 10 },
            MidiEvent::Other { timing: 1, channel: 1, payload: vec![0xB0, 7, 100] },
            MidiEvent::ProgramChange { timing: 2, channel: 1, program: 20 },
            MidiEvent::Other { timing: 3, channel: 1, payload: vec![0xB0, 7, 90] },
            MidiEvent::ProgramChange { timing: 4, channel: 1, program: 30 },
        ]
    );
}

#[test]
fn translate_twice_yields_identical_output() {
    let cfg = offset_cfg();
    let input = vec![
        note_on(0, 3, 40),
        MidiEvent::NoteOff { timing: 1, channel: 3, note: 40, velocity: 0 },
        MidiEvent::Other { timing: 2, channel: 3, payload: vec![0xD0, 55] },
        note_on(3, 3, 5),
    ];
    let first = translate(&cfg, &input);
    let second = translate(&cfg, &input);
    assert_eq!(first, second);
}

#[test]
fn scenario_block_direct_mapping() {
    let cfg = Config::new(ChannelMode::Auto, MappingKind::Direct, 99, 24, true);
    let input = vec![
        note_on(0, 2, 60),
        MidiEvent::Other { timing: 5, channel: 2, payload: vec![1, 64] },
        note_on(10, 2, 120),
        MidiEvent::NoteOff { timing: 20, channel: 2, note: 60, velocity: 0 },
    ];
    let out = translate(&cfg, &input);
    assert_eq!(
        out,
        vec![
            MidiEvent::ProgramChange { timing: 0, channel: 2, program: 60 },
            MidiEvent::Other { timing: 5, channel: 2, payload: vec![1, 64] },
        ]
    );
}

#[test]
fn empty_block_yields_empty_output() {
    let cfg = direct_cfg();
    let out = translate(&cfg, &Vec::new());
    assert!(out.is_empty());
}

#[test]
fn translate_clamps_unclamped_configuration() {
    let raw = Config {
        channel_mode: ChannelMode::Fixed(200),
        mapping: MappingKind::Direct,
        max_note: 255,
        base_note: 255,
        pass_through_other_events: true,
    };
    let out = translate(&raw, &vec![note_on(0, 3, 127)]);
    assert_eq!(
        out,
        vec![MidiEvent::ProgramChange { timing: 0, channel: 15, program: 127 }]
    );
}
