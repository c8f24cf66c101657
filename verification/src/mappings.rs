//! The note-to-key mapping table.
//!
//! A table has exactly 128 slots, one per MIDI note number; each slot is
//! either unmapped or holds a platform key code. The table is built once
//! (from the hardcoded defaults or from a list of configuration entries)
//! and never mutated afterwards.

use vstd::prelude::*;

verus! {

/// One configuration entry: map `note` to the key code `key`.
///
/// Note values outside the table range `[0, 128)` are tolerated here and
/// silently dropped when a table is built from entries.
#[derive(Clone, Copy, PartialEq, Eq, Structural, Debug)]
pub struct Entry {
    pub note: u8,
    pub key: u8,
}

/// The note-to-key mapping table: 128 slots indexed by note number.
#[derive(Debug)]
pub struct Mappings {
    slots: Vec<Option<u16>>,
}

/// Number of slots in every table: one per 7-bit MIDI note number.
pub const TABLE_LEN: usize = 128;

/// The hardcoded default assignment for one slot: a few white keys around
/// middle C mapped to letter keys, and C3 mapped to the space bar.
pub open spec fn default_slot(i: int) -> Option<u16> {
    if i == 48 {
        Some(0x20u16)  // C3 -> space
    } else if i == 60 {
        Some(0x43u16)  // C4 -> C
    } else if i == 62 {
        Some(0x44u16)  // D4 -> D
    } else if i == 64 {
        Some(0x45u16)  // E4 -> E
    } else if i == 65 {
        Some(0x46u16)  // F4 -> F
    } else if i == 67 {
        Some(0x47u16)  // G4 -> G
    } else {
        None
    }
}

/// The full hardcoded default table.
pub open spec fn default_table() -> Seq<Option<u16>> {
    Seq::new(TABLE_LEN as nat, |i: int| default_slot(i))
}

/// The slot that a list of entries leaves at index `s`: the key of the
/// last entry whose note is `s`, or unmapped if there is none.
pub open spec fn slot_from_entries(entries: Seq<Entry>, s: int) -> Option<u16>
    decreases entries.len(),
{
    if entries.len() == 0 {
        None
    } else if entries.last().note as int == s {
        Some(entries.last().key as u16)
    } else {
        slot_from_entries(entries.drop_last(), s)
    }
}

/// The table that a list of entries builds: every slot comes from
/// `slot_from_entries`, so later entries win and out-of-range notes
/// touch nothing.
pub open spec fn table_from_entries(entries: Seq<Entry>) -> Seq<Option<u16>> {
    Seq::new(TABLE_LEN as nat, |s: int| slot_from_entries(entries, s))
}

impl View for Mappings {
    type V = Seq<Option<u16>>;

    closed spec fn view(&self) -> Seq<Option<u16>> {
        self.slots@
    }
}

impl Mappings {
    #[verifier::type_invariant]
    spec fn table_len_fixed(self) -> bool {
        self.slots@.len() == TABLE_LEN
    }

    /// A table with every slot unmapped.
    fn empty() -> (m: Self)
        ensures
            m@ == Seq::new(TABLE_LEN as nat, |i: int| None::<u16>),
    {
        let mut slots: Vec<Option<u16>> = Vec::new();
        let mut i: usize = 0;
        while i < TABLE_LEN
            invariant
                i <= TABLE_LEN,
                slots@.len() == i,
                forall|j: int| 0 <= j < i ==> slots@[j] is None,
            decreases TABLE_LEN - i,
        {
            slots.push(None);
            i = i + 1;
        }
        proof {
            assert(slots@ =~= Seq::new(TABLE_LEN as nat, |j: int| None::<u16>));
        }
        Mappings { slots }
    }

    /// The hardcoded default table, used when no configuration document
    /// is supplied. It cannot fail.
    pub fn hardcoded() -> (m: Self)
        ensures
            m@ == default_table(),
    {
        let mut m = Self::empty();
        m.slots[48] = Some(0x20);
        m.slots[60] = Some(0x43);
        m.slots[62] = Some(0x44);
        m.slots[64] = Some(0x45);
        m.slots[65] = Some(0x46);
        m.slots[67] = Some(0x47);
        proof {
            assert(m@ =~= default_table());
        }
        m
    }

    /// Build a table from configuration entries, in document order: every
    /// slot starts unmapped, each entry overwrites its note's slot (so a
    /// later entry wins over an earlier one for the same note), and an
    /// entry whose note lies outside `[0, 128)` is dropped without error.
    pub fn from_entries(entries: &Vec<Entry>) -> (m: Self)
        ensures
            m@ == table_from_entries(entries@),
    {
        let mut m = Self::empty();
        let mut i: usize = 0;
        proof {
            assert(entries@.take(0) =~= Seq::<Entry>::empty());
        }
        while i < entries.len()
            invariant
                i <= entries@.len(),
                m.slots@.len() == TABLE_LEN,
                forall|s: int|
                    0 <= s < TABLE_LEN ==> m.slots@[s] == slot_from_entries(
                        entries@.take(i as int),
                        s,
                    ),
            decreases entries@.len() - i,
        {
            let e = entries[i];
            if (e.note as usize) < TABLE_LEN {
                m.slots[e.note as usize] = Some(e.key as u16);
            }
            proof {
                lemma_slot_take_step(entries@, i as int);
            }
            i = i + 1;
        }
        proof {
            assert(entries@.take(entries@.len() as int) =~= entries@);
            assert(m@ =~= table_from_entries(entries@));
        }
        m
    }

    /// Resolve a note to its key code: an indexed read that returns the
    /// slot's key for notes inside the table and `None` for any note at
    /// or above the table length, never an error.
    pub fn get(&self, note: u8) -> (r: Option<u16>)
        ensures
            note < TABLE_LEN ==> r == self@[note as int],
            note >= TABLE_LEN ==> r is None,
    {
        proof {
            use_type_invariant(self);
        }
        if (note as usize) < self.slots.len() {
            self.slots[note as usize]
        } else {
            None
        }
    }
}

/// Appending one entry changes exactly how its own slot resolves: the new
/// entry's key wins there, and every other slot is untouched.
proof fn lemma_slot_take_step(entries: Seq<Entry>, i: int)
    requires
        0 <= i < entries.len(),
    ensures
        forall|s: int|
            slot_from_entries(#[trigger] entries.take(i + 1), s) == (
            if entries[i].note as int == s {
                Some(entries[i].key as u16)
            } else {
                slot_from_entries(entries.take(i), s)
            }),
{
    let pre = entries.take(i + 1);
    assert(pre.drop_last() =~= entries.take(i));
    assert(pre.last() == entries[i]);
}

/// Last entry wins: whatever entries came before, a final entry for an
/// in-range note leaves that note's slot holding the final entry's key.
pub proof fn lemma_last_entry_wins(entries: Seq<Entry>, e: Entry)
    requires
        e.note < TABLE_LEN,
    ensures
        table_from_entries(entries.push(e))[e.note as int] == Some(e.key as u16),
{
    let all = entries.push(e);
    assert(all.last() == e);
}

/// An entry whose note lies outside the table range changes nothing:
/// the table built with it equals the table built without it.
pub proof fn lemma_out_of_range_entry_dropped(entries: Seq<Entry>, e: Entry)
    requires
        e.note >= TABLE_LEN,
    ensures
        table_from_entries(entries.push(e)) == table_from_entries(entries),
{
    let all = entries.push(e);
    assert(all.drop_last() =~= entries);
    assert forall|s: int| 0 <= s < TABLE_LEN implies slot_from_entries(all, s)
        == slot_from_entries(entries, s) by {
        assert(all.last() == e);
    }
    assert(table_from_entries(all) =~= table_from_entries(entries));
}

/// The documented default assignments, spelled out: exactly six notes are
/// mapped, to the space bar and the letters C, D, E, F and G, and every
/// other note in the table resolves to nothing.
pub proof fn lemma_default_table_contents()
    ensures
        default_table().len() == TABLE_LEN,
        default_table()[48] == Some(0x20u16),
        default_table()[60] == Some(0x43u16),
        default_table()[62] == Some(0x44u16),
        default_table()[64] == Some(0x45u16),
        default_table()[65] == Some(0x46u16),
        default_table()[67] == Some(0x47u16),
        forall|n: int|
            0 <= n < TABLE_LEN && n != 48 && n != 60 && n != 62 && n != 64 && n != 65 && n != 67
                ==> #[trigger] default_table()[n] is None,
{
}

} // verus!
