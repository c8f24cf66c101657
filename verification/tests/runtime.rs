//! Tests for the dispatch decision, the shutdown coordinator and the
//! startup decisions with their error rendering.

use midikeys::dispatch::{decide, DispatchDecision, KeyAction, KeyDirection, MidiEvent};
use midikeys::errors::{MappingsError, PipelineError};
use midikeys::mappings::Mappings;
use midikeys::shutdown::{ShutdownState, SignalAction};
use midikeys::startup::{choose_device_mode, DeviceChoice};

#[test]
fn note_on_for_unmapped_note_is_a_noop() {
    let m = Mappings::hardcoded();
    let d = decide(&MidiEvent::NoteOn { note: 61 }, &m, false);
    assert_eq!(d, DispatchDecision { trace_note: None, action: None });
}

#[test]
fn note_on_for_middle_c_requests_key_down() {
    let m = Mappings::hardcoded();
    let d = decide(&MidiEvent::NoteOn { note: 60 }, &m, false);
    assert_eq!(
        d.action,
        Some(KeyAction { key: 0x43, direction: KeyDirection::Down })
    );
    assert_eq!(d.trace_note, None);
}

#[test]
fn note_off_for_middle_c_requests_key_up() {
    let m = Mappings::hardcoded();
    let d = decide(&MidiEvent::NoteOff { note: 60 }, &m, false);
    assert_eq!(
        d.action,
        Some(KeyAction { key: 0x43, direction: KeyDirection::Up })
    );
    assert_eq!(d.trace_note, None);
}

#[test]
fn debug_flag_traces_note_on_only() {
    let m = Mappings::hardcoded();
    let on = decide(&MidiEvent::NoteOn { note: 61 }, &m, true);
    assert_eq!(on.trace_note, Some(61));
    let off = decide(&MidiEvent::NoteOff { note: 61 }, &m, true);
    assert_eq!(off.trace_note, None);
}

#[test]
fn unhandled_message_kind_is_a_noop() {
    let m = Mappings::hardcoded();
    let d = decide(&MidiEvent::Other, &m, true);
    assert_eq!(d, DispatchDecision { trace_note: None, action: None });
}

#[test]
fn dispatches_are_independent_of_each_other() {
    let m = Mappings::hardcoded();
    let first = decide(&MidiEvent::NoteOn { note: 60 }, &m, false);
    let _ = decide(&MidiEvent::NoteOn { note: 48 }, &m, false);
    let again = decide(&MidiEvent::NoteOn { note: 60 }, &m, false);
    assert_eq!(first, again);
    assert_eq!(m.get(60), Some(0x43));
    assert_eq!(m.get(48), Some(0x20));
}

#[test]
fn first_interrupt_requests_shutdown_and_wakes_main() {
    let mut s = ShutdownState::new();
    assert!(!s.is_requested());
    assert!(s.main_should_block());
    let action = s.on_interrupt();
    assert_eq!(action, SignalAction::WakeMain);
    assert!(s.is_requested());
    assert!(!s.main_should_block());
}

#[test]
fn second_interrupt_escalates_to_forced_termination() {
    let mut s = ShutdownState::new();
    assert_eq!(s.on_interrupt(), SignalAction::WakeMain);
    assert_eq!(s.on_interrupt(), SignalAction::TerminateForced);
    assert!(s.is_requested());
    assert_eq!(s.on_interrupt(), SignalAction::TerminateForced);
}

#[test]
fn no_devices_is_a_fatal_startup_error() {
    match choose_device_mode(0) {
        Err(PipelineError::NoDevices) => {}
        _ => panic!("zero devices must yield the no-devices error"),
    }
}

#[test]
fn single_device_is_taken_without_prompt() {
    assert_eq!(choose_device_mode(1).unwrap(), DeviceChoice::AutoFirst);
}

#[test]
fn several_devices_go_to_a_prompt() {
    assert_eq!(choose_device_mode(5).unwrap(), DeviceChoice::Prompt);
}

#[test]
fn error_renderings() {
    assert_eq!(
        PipelineError::NoDevices.render(),
        "No MIDI devices found"
    );
    assert_eq!(
        PipelineError::Platform(String::from("injection failed")).render(),
        "Platform error: injection failed"
    );
    assert_eq!(
        PipelineError::Io(String::from("file missing")).render(),
        "IO error: file missing"
    );
    assert_eq!(
        PipelineError::SignalRegistration(String::from("no handler")).render(),
        "Cancellation signal error: no handler"
    );
    let config = PipelineError::Config(MappingsError {
        message: String::from("bad shape"),
        span: None,
        source: String::from("mapping = 5"),
    });
    assert_eq!(config.render(), "Configuration error: bad shape\nmapping = 5");
}
