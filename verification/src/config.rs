//! Configuration of the translator: mapping formula, output-channel policy
//! and pass-through policy.
//!
//! The host-facing parameter layer is expected to deliver values already
//! clamped to the MIDI domain, but the translator does not trust that:
//! [`Config::clamped`] saturates every field into its declared range.

use vstd::prelude::*;

verus! {

/// How the channel of an emitted Program Change is chosen.
#[derive(Clone, Copy, PartialEq, Eq, Structural, Debug)]
pub enum ChannelMode {
    /// Reuse the channel of the triggering Note-On.
    Auto,
    /// Always emit on this channel (zero-based, `0..=15`).
    Fixed(u8),
}

/// The note-to-program mapping formula.
///
/// Two incompatible formulas exist; the choice is an explicit configuration
/// axis rather than a silently merged behaviour.
#[derive(Clone, Copy, PartialEq, Eq, Structural, Debug)]
pub enum MappingKind {
    /// `program = note` for `note <= max_note`; higher notes are dropped.
    Direct,
    /// `program = note - base_note` for `base_note <= note` and
    /// `note - base_note <= max_note`; all other notes are dropped.
    Offset,
}

/// A snapshot of the translator's configuration, read-only during a block.
#[derive(Clone, Copy, PartialEq, Eq, Structural, Debug)]
pub struct Config {
    /// Output-channel policy for emitted Program Change events.
    pub channel_mode: ChannelMode,
    /// Which note-to-program formula is in force.
    pub mapping: MappingKind,
    /// Inclusive upper bound on convertible program numbers, `0..=127`.
    pub max_note: u8,
    /// The note that maps to program 0 under the offset formula, `0..=127`.
    pub base_note: u8,
    /// Whether non-note events are forwarded instead of dropped.
    pub pass_through_other_events: bool,
}

impl Config {
    /// Every field lies in its declared MIDI domain.
    pub open spec fn wf(self) -> bool {
        &&& self.max_note <= 127
        &&& self.base_note <= 127
        &&& (self.channel_mode matches ChannelMode::Fixed(k) ==> k <= 15)
    }

    /// The configuration with every field saturated into its domain.
    pub open spec fn spec_clamped(self) -> Config {
        Config {
            channel_mode: match self.channel_mode {
                ChannelMode::Auto => ChannelMode::Auto,
                ChannelMode::Fixed(k) => ChannelMode::Fixed(if k > 15 { 15 } else { k }),
            },
            mapping: self.mapping,
            max_note: if self.max_note > 127 { 127 } else { self.max_note },
            base_note: if self.base_note > 127 { 127 } else { self.base_note },
            pass_through_other_events: self.pass_through_other_events,
        }
    }

    /// Saturate every field into its domain; a well-formed configuration is
    /// returned unchanged.
    pub fn clamped(self) -> (r: Config)
        ensures
            r == self.spec_clamped(),
            r.wf(),
            self.wf() ==> r == self,
    {
        Config {
            channel_mode: match self.channel_mode {
                ChannelMode::Auto => ChannelMode::Auto,
                ChannelMode::Fixed(k) => ChannelMode::Fixed(if k > 15 { 15 } else { k }),
            },
            mapping: self.mapping,
            max_note: if self.max_note > 127 { 127 } else { self.max_note },
            base_note: if self.base_note > 127 { 127 } else { self.base_note },
            pass_through_other_events: self.pass_through_other_events,
        }
    }

    /// Build a configuration from raw field values, clamping each into its
    /// domain.
    pub fn new(
        channel_mode: ChannelMode,
        mapping: MappingKind,
        max_note: u8,
        base_note: u8,
        pass_through_other_events: bool,
    ) -> (r: Config)
        ensures
            r == (Config {
                channel_mode,
                mapping,
                max_note,
                base_note,
                pass_through_other_events,
            }).spec_clamped(),
            r.wf(),
    {
        let raw = Config { channel_mode, mapping, max_note, base_note, pass_through_other_events };
        raw.clamped()
    }
}

/// The default configuration: direct mapping up to note 99, automatic
/// channel selection, base note 24, non-note events forwarded.
pub open spec fn default_config() -> Config {
    Config {
        channel_mode: ChannelMode::Auto,
        mapping: MappingKind::Direct,
        max_note: 99,
        base_note: 24,
        pass_through_other_events: true,
    }
}

impl Default for Config {
    fn default() -> (r: Config)
        ensures
            r == default_config(),
            r.wf(),
    {
        Config {
            channel_mode: ChannelMode::Auto,
            mapping: MappingKind::Direct,
            max_note: 99,
            base_note: 24,
            pass_through_other_events: true,
        }
    }
}

/// The channel mode selected by the host-facing channel parameter:
/// 0 means `Auto`, 1 through 16 select that channel (one-based on the
/// parameter surface, zero-based internally), and larger values saturate
/// to the highest channel.
pub open spec fn spec_channel_mode_from_param(v: u8) -> ChannelMode {
    if v == 0 {
        ChannelMode::Auto
    } else if v <= 16 {
        ChannelMode::Fixed((v - 1) as u8)
    } else {
        ChannelMode::Fixed(15)
    }
}

/// Decode the host-facing channel parameter into a channel mode.
pub fn channel_mode_from_param(v: u8) -> (m: ChannelMode)
    ensures
        m == spec_channel_mode_from_param(v),
        m matches ChannelMode::Fixed(k) ==> k <= 15,
{
    if v == 0 {
        ChannelMode::Auto
    } else if v <= 16 {
        ChannelMode::Fixed(v - 1)
    } else {
        ChannelMode::Fixed(15)
    }
}

} // verus!
