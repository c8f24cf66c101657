//! The per-message dispatch decision.
//!
//! One incoming MIDI message, already classified into a tagged event by the
//! boundary that owns the platform message objects, becomes zero or one
//! synthetic key action: a note-on for a mapped note asks for a key-down, a
//! note-off for a key-up, and everything else — an unmapped note or an
//! unhandled message kind — is a no-op. The decision is a pure function of
//! the event, the table and the debug flag; it keeps no state across calls.

use vstd::prelude::*;

use crate::mappings::Mappings;
use crate::mappings::TABLE_LEN;

verus! {

/// An incoming MIDI message, classified: the two handled kinds with their
/// note number, and one variant for every other, ignored, kind.
#[derive(Clone, Copy, PartialEq, Eq, Structural, Debug)]
pub enum MidiEvent {
    NoteOn { note: u8 },
    NoteOff { note: u8 },
    Other,
}

/// The direction of a synthetic key action.
#[derive(Clone, Copy, PartialEq, Eq, Structural, Debug)]
pub enum KeyDirection {
    Down,
    Up,
}

/// One synthetic key action to request from the input-injection
/// collaborator.
#[derive(Clone, Copy, PartialEq, Eq, Structural, Debug)]
pub struct KeyAction {
    pub key: u16,
    pub direction: KeyDirection,
}

/// Everything one dispatch asks of its caller: an optional diagnostic
/// trace of the raw note number, and an optional key action.
#[derive(Clone, Copy, PartialEq, Eq, Structural, Debug)]
pub struct DispatchDecision {
    /// The note to print as a diagnostic trace, only for a note-on while
    /// the debug flag is enabled.
    pub trace_note: Option<u8>,
    /// The key action to inject, or nothing for an unmapped note or an
    /// unhandled message kind.
    pub action: Option<KeyAction>,
}

/// What the table resolves a note to: the slot's key for an in-range note,
/// nothing for a note at or above the table length.
pub open spec fn resolved_key(table: Seq<Option<u16>>, note: u8) -> Option<u16> {
    if note < TABLE_LEN {
        table[note as int]
    } else {
        None
    }
}

/// The whole dispatch decision as a function of the event, the table and
/// the debug flag.
pub open spec fn decision(event: MidiEvent, table: Seq<Option<u16>>, debug: bool)
    -> DispatchDecision {
    match event {
        MidiEvent::NoteOn { note } => DispatchDecision {
            trace_note: if debug {
                Some(note)
            } else {
                None
            },
            action: match resolved_key(table, note) {
                Some(key) => Some(KeyAction { key, direction: KeyDirection::Down }),
                None => None,
            },
        },
        MidiEvent::NoteOff { note } => DispatchDecision {
            trace_note: None,
            action: match resolved_key(table, note) {
                Some(key) => Some(KeyAction { key, direction: KeyDirection::Up }),
                None => None,
            },
        },
        MidiEvent::Other => DispatchDecision { trace_note: None, action: None },
    }
}

/// Decide what one message asks for. The table is only read, never
/// changed, so any number of callback contexts may dispatch against the
/// same table at once; and the result depends on nothing but the
/// arguments, so dispatches are independent of one another.
pub fn decide(event: &MidiEvent, mappings: &Mappings, debug: bool) -> (d: DispatchDecision)
    ensures
        d == decision(*event, mappings@, debug),
{
    match *event {
        MidiEvent::NoteOn { note } => {
            let trace_note = if debug {
                Some(note)
            } else {
                None
            };
            let action = match mappings.get(note) {
                Some(key) => Some(KeyAction { key, direction: KeyDirection::Down }),
                None => None,
            };
            DispatchDecision { trace_note, action }
        },
        MidiEvent::NoteOff { note } => {
            let action = match mappings.get(note) {
                Some(key) => Some(KeyAction { key, direction: KeyDirection::Up }),
                None => None,
            };
            DispatchDecision { trace_note: None, action }
        },
        MidiEvent::Other => DispatchDecision { trace_note: None, action: None },
    }
}

/// An unmapped or out-of-range note is a no-op for both handled kinds:
/// no trace beyond the debug echo, no key action, and no error.
pub proof fn lemma_unmapped_note_is_noop(table: Seq<Option<u16>>, note: u8, debug: bool)
    requires
        resolved_key(table, note) is None,
    ensures
        decision(MidiEvent::NoteOn { note }, table, debug).action is None,
        decision(MidiEvent::NoteOff { note }, table, debug).action is None,
{
}

/// A mapped note asks for paired actions: the note-on requests key-down
/// and the note-off requests key-up, both with the very key code the
/// table resolves the note to.
pub proof fn lemma_mapped_note_pairs_actions(
    table: Seq<Option<u16>>,
    note: u8,
    key: u16,
    debug: bool,
)
    requires
        resolved_key(table, note) == Some(key),
    ensures
        decision(MidiEvent::NoteOn { note }, table, debug).action == Some(
            KeyAction { key, direction: KeyDirection::Down },
        ),
        decision(MidiEvent::NoteOff { note }, table, debug).action == Some(
            KeyAction { key, direction: KeyDirection::Up },
        ),
{
}

} // verus!
