//! Decision logic of the macOS platform adapter.
//!
//! The adapter translates between the operating system's opaque input-source
//! identifiers (strings such as `"com.apple.keylayout.ABC"`) and packed
//! configuration values through a static bidirectional table. The table is
//! immutable after construction and injective in both directions, so forward
//! and reverse lookup form a bijection over its entries. Reading the active
//! source and choosing the target of a switch are decided here; the calls
//! into the Text Input Sources API stay outside the library.

use vstd::prelude::*;

use crate::typedef::{
    layout_of, method_of, pack, pack_of, Source, NVIQ_IME_LAYOUT_CHINESE_SIMPLIFIED,
    NVIQ_IME_LAYOUT_CHINESE_TRADITIONAL, NVIQ_IME_LAYOUT_JAPANESE, NVIQ_IME_LAYOUT_KOREAN,
    NVIQ_IME_LAYOUT_NONE, NVIQ_IME_LAYOUT_US, NVIQ_IME_METHOD_NONE, NVIQ_IME_METHOD_PINYIN,
    NVIQ_IME_METHOD_WUBI,
};

verus! {

/// A layout code that one of the named layout constants covers.
pub open spec fn is_known_layout(layout: u32) -> bool {
    ||| layout == NVIQ_IME_LAYOUT_NONE
    ||| layout == NVIQ_IME_LAYOUT_US
    ||| layout == NVIQ_IME_LAYOUT_CHINESE_SIMPLIFIED
    ||| layout == NVIQ_IME_LAYOUT_CHINESE_TRADITIONAL
    ||| layout == NVIQ_IME_LAYOUT_JAPANESE
    ||| layout == NVIQ_IME_LAYOUT_KOREAN
}

/// A method code that one of the named method constants covers.
pub open spec fn is_known_method(method: u32) -> bool {
    ||| method == NVIQ_IME_METHOD_NONE
    ||| method == NVIQ_IME_METHOD_PINYIN
    ||| method == NVIQ_IME_METHOD_WUBI
}

/// A packed value both of whose halves are named constants: no garbage bits.
pub open spec fn is_known_source(value: Source) -> bool {
    is_known_layout(layout_of(value)) && is_known_method(method_of(value))
}

/// The static bidirectional table between macOS input-source identifiers and
/// packed configuration values. It is built once and only read thereafter.
pub struct SourceTable {
    entries: Vec<(String, Source)>,
}

impl SourceTable {
    /// The mathematical content of the table: the sequence of configured
    /// (identifier, packed value) pairs.
    pub closed spec fn model(&self) -> Seq<(Seq<char>, Source)> {
        self.entries@.map(|i: int, entry: (String, Source)| (entry.0@, entry.1))
    }

    /// Number of configured entries.
    pub open spec fn len(&self) -> nat {
        self.model().len()
    }

    /// The identifier of the entry at position `i`.
    pub open spec fn id_at(&self, i: int) -> Seq<char> {
        self.model()[i].0
    }

    /// The packed value of the entry at position `i`.
    pub open spec fn value_at(&self, i: int) -> Source {
        self.model()[i].1
    }

    /// Well-formedness: the identifiers and the packed values are each
    /// injective over the entries — two entries never share an identifier or
    /// a value, so reverse lookup is deterministic — and every stored value
    /// is built from the named constants.
    pub open spec fn wf(&self) -> bool {
        &&& forall|i: int, j: int|
            #![trigger self.id_at(i), self.id_at(j)]
            0 <= i < j < self.len() ==> self.id_at(i) != self.id_at(j)
        &&& forall|i: int, j: int|
            #![trigger self.value_at(i), self.value_at(j)]
            0 <= i < j < self.len() ==> self.value_at(i) != self.value_at(j)
        &&& forall|i: int| 0 <= i < self.len() ==> is_known_source(#[trigger] self.value_at(i))
    }

    /// Some entry carries this identifier.
    pub open spec fn has_id(&self, id: Seq<char>) -> bool {
        exists|i: int| 0 <= i < self.len() && self.id_at(i) == id
    }

    /// Some entry carries this packed value.
    pub open spec fn has_value(&self, value: Source) -> bool {
        exists|i: int| 0 <= i < self.len() && self.value_at(i) == value
    }

    /// The packed value of the entry that carries `id` (meaningful when
    /// `has_id(id)` holds).
    pub open spec fn value_of(&self, id: Seq<char>) -> Source {
        self.value_at(choose|i: int| 0 <= i < self.len() && self.id_at(i) == id)
    }

    /// The identifier of the entry that carries `value` (meaningful when
    /// `has_value(value)` holds).
    pub open spec fn id_of(&self, value: Source) -> Seq<char> {
        self.id_at(choose|i: int| 0 <= i < self.len() && self.value_at(i) == value)
    }

    /// Two entries with the same identifier are the same entry.
    proof fn lemma_id_index_unique(&self, a: int, b: int)
        requires
            self.wf(),
            0 <= a < self.len(),
            0 <= b < self.len(),
            self.id_at(a) == self.id_at(b),
        ensures
            a == b,
    {
        if a < b {
            assert(self.id_at(a) != self.id_at(b));
        }
        if b < a {
            assert(self.id_at(b) != self.id_at(a));
        }
    }

    /// Two entries with the same packed value are the same entry.
    proof fn lemma_value_index_unique(&self, a: int, b: int)
        requires
            self.wf(),
            0 <= a < self.len(),
            0 <= b < self.len(),
            self.value_at(a) == self.value_at(b),
        ensures
            a == b,
    {
        if a < b {
            assert(self.value_at(a) != self.value_at(b));
        }
        if b < a {
            assert(self.value_at(b) != self.value_at(a));
        }
    }

    /// Build the configured table: the identifiers the adapter recognises,
    /// each with its packed configuration value.
    pub fn new() -> (table: SourceTable)
        ensures
            table.wf(),
            table.len() == 3,
            table.id_at(0) == "com.apple.keylayout.ABC"@,
            table.value_at(0) == pack_of(NVIQ_IME_LAYOUT_US, NVIQ_IME_METHOD_NONE),
            table.id_at(1) == "com.apple.inputmethod.SCIM.ITABC"@,
            table.value_at(1) == pack_of(
                NVIQ_IME_LAYOUT_CHINESE_SIMPLIFIED,
                NVIQ_IME_METHOD_PINYIN,
            ),
            table.id_at(2) == "com.apple.inputmethod.SCIM.WBX"@,
            table.value_at(2) == pack_of(NVIQ_IME_LAYOUT_CHINESE_SIMPLIFIED, NVIQ_IME_METHOD_WUBI),
    {
        proof {
            assert(0x0409u32 & 0x0000FFFFu32 == 0x0409u32 && 0x0804u32 & 0x0000FFFFu32
                == 0x0804u32 && 0u32 & 0xFFFF0000u32 == 0u32 && 0x00010000u32 & 0xFFFF0000u32
                == 0x00010000u32) by (bit_vector);
        }
        let mut entries: Vec<(String, Source)> = Vec::new();
        entries.push(
            ("com.apple.keylayout.ABC".to_owned(), pack(NVIQ_IME_LAYOUT_US, NVIQ_IME_METHOD_NONE)),
        );
        entries.push(
            (
                "com.apple.inputmethod.SCIM.ITABC".to_owned(),
                pack(NVIQ_IME_LAYOUT_CHINESE_SIMPLIFIED, NVIQ_IME_METHOD_PINYIN),
            ),
        );
        entries.push(
            (
                "com.apple.inputmethod.SCIM.WBX".to_owned(),
                pack(NVIQ_IME_LAYOUT_CHINESE_SIMPLIFIED, NVIQ_IME_METHOD_WUBI),
            ),
        );
        let table = SourceTable { entries };
        proof {
            reveal_strlit("com.apple.keylayout.ABC");
            reveal_strlit("com.apple.inputmethod.SCIM.ITABC");
            reveal_strlit("com.apple.inputmethod.SCIM.WBX");
            assert(table.id_at(0).len() == 23);
            assert(table.id_at(1).len() == 32);
            assert(table.id_at(2).len() == 30);
        }
        table
    }

    /// Translate an input-source identifier to its packed value; an unknown
    /// identifier degrades to the `NONE` sentinel rather than failing.
    pub fn id_to_source(&self, source_id: &String) -> (value: Source)
        requires
            self.wf(),
        ensures
            self.has_id(source_id@) ==> value == self.value_of(source_id@),
            !self.has_id(source_id@) ==> value == pack_of(
                NVIQ_IME_LAYOUT_NONE,
                NVIQ_IME_METHOD_NONE,
            ),
            is_known_source(value),
    {
        let n = self.entries.len();
        let mut i: usize = 0;
        while i < n
            invariant
                self.wf(),
                n == self.len(),
                0 <= i <= n,
                forall|j: int| 0 <= j < i ==> self.id_at(j) != source_id@,
            decreases n - i,
        {
            if self.entries[i].0 == *source_id {
                proof {
                    assert(self.id_at(i as int) == source_id@);
                    assert(self.has_id(source_id@));
                    let k = choose|k: int|
                        0 <= k < self.len() && self.id_at(k) == source_id@;
                    self.lemma_id_index_unique(k, i as int);
                }
                return self.entries[i].1;
            }
            i += 1;
        }
        proof {
            assert(0u32 | 0u32 == 0u32 && 0u32 & 0x0000FFFFu32 == 0u32 && 0u32 & 0xFFFF0000u32
                == 0u32) by (bit_vector);
        }
        NVIQ_IME_LAYOUT_NONE | NVIQ_IME_METHOD_NONE
    }

    /// Reverse-translate a packed value to the identifier of its entry;
    /// a value with no entry yields nothing, and the caller then leaves the
    /// input state unchanged.
    pub fn source_to_id(&self, source: Source) -> (id: Option<&String>)
        requires
            self.wf(),
        ensures
            match id {
                Some(found) => self.has_value(source) && found@ == self.id_of(source),
                None => !self.has_value(source),
            },
    {
        let n = self.entries.len();
        let mut i: usize = 0;
        while i < n
            invariant
                self.wf(),
                n == self.len(),
                0 <= i <= n,
                forall|j: int| 0 <= j < i ==> self.value_at(j) != source,
            decreases n - i,
        {
            if self.entries[i].1 == source {
                proof {
                    assert(self.value_at(i as int) == source);
                    assert(self.has_value(source));
                    let k = choose|k: int|
                        0 <= k < self.len() && self.value_at(k) == source;
                    self.lemma_value_index_unique(k, i as int);
                }
                return Some(&self.entries[i].0);
            }
            i += 1;
        }
        None
    }
}

/// Decide the packed value that a read of the active input source yields:
/// the `NONE` sentinel when the operating system reported no source handle,
/// else the table translation of the handle's identifier.
pub fn get_input_source(table: &SourceTable, source_id: Option<&String>) -> (value: Source)
    requires
        table.wf(),
    ensures
        source_id matches Some(id) ==> {
            &&& table.has_id(id@) ==> value == table.value_of(id@)
            &&& !table.has_id(id@) ==> value == pack_of(NVIQ_IME_LAYOUT_NONE, NVIQ_IME_METHOD_NONE)
        },
        source_id is None ==> value == NVIQ_IME_LAYOUT_NONE,
        is_known_source(value),
{
    match source_id {
        Some(id) => table.id_to_source(id),
        None => {
            proof {
                assert(0u32 & 0x0000FFFFu32 == 0u32 && 0u32 & 0xFFFF0000u32 == 0u32)
                    by (bit_vector);
            }
            NVIQ_IME_LAYOUT_NONE
        },
    }
}

/// The identifier mapping table is a true bijection over its configured
/// entries: for every entry, forward lookup of its identifier yields that
/// entry's value, and reverse lookup of its value yields that entry's
/// identifier.
pub proof fn lemma_table_bijection(table: &SourceTable, i: int)
    requires
        table.wf(),
        0 <= i < table.len(),
    ensures
        table.has_id(table.id_at(i)),
        table.value_of(table.id_at(i)) == table.value_at(i),
        table.has_value(table.value_at(i)),
        table.id_of(table.value_at(i)) == table.id_at(i),
{
    assert(table.has_id(table.id_at(i)));
    let k = choose|k: int| 0 <= k < table.len() && table.id_at(k) == table.id_at(i);
    table.lemma_id_index_unique(k, i);
    assert(table.has_value(table.value_at(i)));
    let m = choose|m: int| 0 <= m < table.len() && table.value_at(m) == table.value_at(i);
    table.lemma_value_index_unique(m, i);
}

} // verus!
