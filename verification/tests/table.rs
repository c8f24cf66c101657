//! Tests for the mapping table: the hardcoded defaults, lookup behaviour,
//! and building tables from entry lists and configuration documents.

use midikeys::mappings::{Entry, Mappings};

#[test]
fn default_table_documented_slots() {
    let m = Mappings::hardcoded();
    assert_eq!(m.get(48), Some(0x20)); // C3 -> space
    assert_eq!(m.get(60), Some(0x43)); // C4 -> C
    assert_eq!(m.get(62), Some(0x44)); // D4 -> D
    assert_eq!(m.get(64), Some(0x45)); // E4 -> E
    assert_eq!(m.get(65), Some(0x46)); // F4 -> F
    assert_eq!(m.get(67), Some(0x47)); // G4 -> G
    for note in 0u8..128 {
        if ![48, 60, 62, 64, 65, 67].contains(&note) {
            assert_eq!(m.get(note), None, "note {note} should be unmapped");
        }
    }
}

#[test]
fn out_of_range_note_resolves_to_none() {
    let m = Mappings::hardcoded();
    for note in 128u8..=255 {
        assert_eq!(m.get(note), None);
    }
}

#[test]
fn from_entries_last_wins() {
    let entries = vec![Entry { note: 60, key: 65 }, Entry { note: 60, key: 66 }];
    let m = Mappings::from_entries(&entries);
    assert_eq!(m.get(60), Some(66));
}

#[test]
fn from_entries_drops_out_of_range_note() {
    let entries = vec![Entry { note: 200, key: 10 }];
    let m = Mappings::from_entries(&entries);
    for note in 0u8..=255 {
        assert_eq!(m.get(note), None);
    }
}

#[test]
fn document_round_trip_last_wins() {
    let text = "[[mapping]]\nnote = 60\nkey = 65\n\n[[mapping]]\nnote = 60\nkey = 66\n";
    let m = Mappings::from_document(text).unwrap();
    assert_eq!(m.get(60), Some(66));
}

#[test]
fn document_entry_with_out_of_range_note_is_dropped() {
    let text = "[[mapping]]\nnote = 200\nkey = 10\n";
    let m = Mappings::from_document(text).unwrap();
    for note in 0u8..=255 {
        assert_eq!(m.get(note), None);
    }
}

#[test]
fn document_with_several_entries() {
    let text = "[[mapping]]\nnote = 1\nkey = 11\n\n[[mapping]]\nnote = 2\nkey = 12\n\n[[mapping]]\nnote = 3\nkey = 13\n";
    let m = Mappings::from_document(text).unwrap();
    assert_eq!(m.get(1), Some(11));
    assert_eq!(m.get(2), Some(12));
    assert_eq!(m.get(3), Some(13));
    assert_eq!(m.get(4), None);
}

#[test]
fn document_with_empty_mapping_list() {
    let m = Mappings::from_document("mapping = []\n").unwrap();
    for note in 0u8..=255 {
        assert_eq!(m.get(note), None);
    }
}

#[test]
fn invalid_document_rendering_includes_source() {
    let text = "mapping = [ not valid toml";
    let err = Mappings::from_document(text).unwrap_err();
    assert_eq!(err.source, text);
    let rendered = err.render();
    assert!(rendered.contains(text));
    assert!(rendered.contains("Configuration error"));
    assert!(!err.message.is_empty());
}

#[test]
fn invalid_document_carries_parser_span() {
    let text = "note ==== 3";
    let err = Mappings::from_document(text).unwrap_err();
    let (start, end) = err.span.expect("a syntax error should locate the fault");
    assert!(start <= end);
    assert!(end <= text.len());
}

#[test]
fn document_without_mapping_list_is_rejected() {
    let err = Mappings::from_document("other = 3\n").unwrap_err();
    assert_eq!(err.source, "other = 3\n");
    assert!(err.message.contains("mapping"));
}

#[test]
fn document_where_mapping_is_not_a_list_is_rejected() {
    assert!(Mappings::from_document("mapping = 5\n").is_err());
}

#[test]
fn document_entry_missing_note_is_rejected() {
    assert!(Mappings::from_document("[[mapping]]\nkey = 10\n").is_err());
}

#[test]
fn document_entry_missing_key_is_rejected() {
    assert!(Mappings::from_document("[[mapping]]\nnote = 10\n").is_err());
}

#[test]
fn document_entry_with_note_above_byte_range_is_rejected() {
    assert!(Mappings::from_document("[[mapping]]\nnote = 300\nkey = 10\n").is_err());
}

#[test]
fn document_entry_with_negative_key_is_rejected() {
    assert!(Mappings::from_document("[[mapping]]\nnote = 10\nkey = -1\n").is_err());
}

#[test]
fn document_entry_with_non_integer_note_is_rejected() {
    assert!(Mappings::from_document("[[mapping]]\nnote = \"sixty\"\nkey = 10\n").is_err());
}

#[test]
fn document_extra_keys_are_ignored() {
    let text = "title = \"pad\"\n\n[[mapping]]\nnote = 60\nkey = 65\nvelocity = 9\n";
    let m = Mappings::from_document(text).unwrap();
    assert_eq!(m.get(60), Some(65));
}
