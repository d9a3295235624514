//! The pitch model of a guitar practice dashboard.
//!
//! Given the tuning of a stringed instrument, the library maps every
//! position of the fretboard to the note it sounds, tells which notes belong
//! to a scale, and lays out the grid that a display highlights. It also holds
//! the decisions of the parts around that model which need no device of
//! their own: the single-voice tone player, the guard against re-entering a
//! recomputation, and the numbering of panes and components.
//!
//! Nothing here touches a device or a file, and nothing uses floating point:
//! the caller turns a distance in semitones into hertz and carries out the
//! player's commands on its audio sink.

pub mod frequency;
pub mod grid;
pub mod panes;
pub mod pitch;
pub mod playback;
pub mod scale;
pub mod text;
pub mod tuning;

pub use grid::{
    generate_fretboard_table, generate_string_data, get_marked_frets, is_fret_marked,
    update_fret_data, FretCell, RecomputeGuard,
};
pub use panes::{kind_to_tag, pane_id_from, title_for, ComponentKind, Layout, PaneId};
pub use pitch::{Key, Note};
pub use playback::{AudioPlayer, PlaybackState, SinkCommand, Tone};
pub use scale::{get_notes_in_scale, is_note_in_scale, Scale};
pub use tuning::{
    get_note_at_position, get_string_base_notes, is_playable, make_base_notes, note_at,
};
