//! The reference table: an immutable mapping from essences to classifications.

use vstd::prelude::*;

use crate::registry::{REFERENCE_ENTRIES, REFERENCE_ENTRY_COUNT};
use crate::text::same_text;

verus! {

/// The rows that a list of entries denotes: each essence as text, with its
/// classification.
pub open spec fn rows_of(entries: Seq<(&str, bool)>) -> Seq<(Seq<char>, bool)> {
    Seq::new(entries.len(), |i: int| (entries[i].0@, entries[i].1))
}

/// Whether some row is keyed by `essence`.
pub open spec fn lists(rows: Seq<(Seq<char>, bool)>, essence: Seq<char>) -> bool {
    exists|i: int| 0 <= i < rows.len() && (#[trigger] rows[i]).0 == essence
}

/// No essence is listed twice with two different classifications.
pub open spec fn consistent(rows: Seq<(Seq<char>, bool)>) -> bool {
    forall|i: int, j: int|
        0 <= i < rows.len() && 0 <= j < rows.len() && (#[trigger] rows[i]).0 == (
        #[trigger] rows[j]).0 ==> rows[i].1 == rows[j].1
}

/// The mapping that rows denote: its keys are the listed essences, and a key's
/// value is the classification of a row that lists it. Where the rows are
/// [`consistent`], that value is the same for every such row.
pub open spec fn mapping_of(rows: Seq<(Seq<char>, bool)>) -> Map<Seq<char>, bool> {
    Map::new(
        |essence: Seq<char>| lists(rows, essence),
        |essence: Seq<char>|
            rows[choose|i: int| 0 <= i < rows.len() && (#[trigger] rows[i]).0 == essence].1,
    )
}

/// What a lookup of `essence` in `mapping` gives: the stored classification,
/// or nothing where the essence is no key.
pub open spec fn lookup_in(mapping: Map<Seq<char>, bool>, essence: Seq<char>) -> Option<bool> {
    if mapping.contains_key(essence) {
        Some(mapping[essence])
    } else {
        None
    }
}

/// The mapping of the built-in reference data.
pub open spec fn standard_mapping() -> Map<Seq<char>, bool> {
    mapping_of(rows_of(REFERENCE_ENTRIES@))
}

/// In consistent rows, every row that lists an essence carries the value that
/// the mapping has for it.
pub proof fn lemma_row_in_mapping(rows: Seq<(Seq<char>, bool)>, i: int)
    requires
        consistent(rows),
        0 <= i < rows.len(),
    ensures
        mapping_of(rows).contains_key(rows[i].0),
        mapping_of(rows)[rows[i].0] == rows[i].1,
{
    let essence = rows[i].0;
    assert(lists(rows, essence));
    let chosen = choose|k: int| 0 <= k < rows.len() && (#[trigger] rows[k]).0 == essence;
    assert(rows[chosen].0 == rows[i].0);
}

/// Every row of the built-in reference data is classified as compressible, so
/// no two rows can contradict each other.
pub proof fn lemma_standard_rows_consistent()
    ensures
        forall|i: int|
            0 <= i < REFERENCE_ENTRIES@.len() ==> (#[trigger] rows_of(REFERENCE_ENTRIES@)[i]).1,
        consistent(rows_of(REFERENCE_ENTRIES@)),
{
    assert forall|i: int| 0 <= i < REFERENCE_ENTRIES@.len() implies (#[trigger] rows_of(
        REFERENCE_ENTRIES@,
    )[i]).1 by {
        assert(REFERENCE_ENTRIES@[i].1);
    }
}

/// An immutable table from essences to classifications, read through
/// [`ReferenceTable::lookup`]. Its view is the mapping it stands for.
pub struct ReferenceTable<'a> {
    entries: &'a [(&'a str, bool)],
}

impl<'a> View for ReferenceTable<'a> {
    type V = Map<Seq<char>, bool>;

    closed spec fn view(&self) -> Map<Seq<char>, bool> {
        mapping_of(rows_of(self.entries@))
    }
}

impl<'a> ReferenceTable<'a> {
    #[verifier::type_invariant]
    spec fn well_formed(self) -> bool {
        consistent(rows_of(self.entries@))
    }

    /// Builds a table from `entries`, after checking them: the table is
    /// refused exactly when some essence is listed with two different
    /// classifications. A row that only repeats an earlier one is accepted.
    pub fn from_entries(entries: &'a [(&'a str, bool)]) -> (table: Option<ReferenceTable<'a>>)
        ensures
            table is Some <==> consistent(rows_of(entries@)),
            table matches Some(t) ==> t@ == mapping_of(rows_of(entries@)),
    {
        let ghost rows = rows_of(entries@);
        let count = entries.len();
        let mut first: usize = 0;
        while first < count
            invariant
                first <= count,
                count == entries@.len(),
                rows == rows_of(entries@),
                forall|i: int, j: int|
                    0 <= i < first && i < j < count && (#[trigger] rows[i]).0 == (
                    #[trigger] rows[j]).0 ==> rows[i].1 == rows[j].1,
            decreases count - first,
        {
            let mut second: usize = first + 1;
            while second < count
                invariant
                    first < second <= count,
                    count == entries@.len(),
                    rows == rows_of(entries@),
                    forall|j: int|
                        first < j < second && rows[first as int].0 == (#[trigger] rows[j]).0
                            ==> rows[first as int].1 == rows[j].1,
                decreases count - second,
            {
                if same_text(entries[first].0, entries[second].0) && entries[first].1
                    != entries[second].1 {
                    proof {
                        assert(rows[first as int].0 == rows[second as int].0);
                        assert(rows[first as int].1 != rows[second as int].1);
                    }
                    return None;
                }
                second += 1;
            }
            first += 1;
        }
        proof {
            assert forall|i: int, j: int|
                0 <= i < rows.len() && 0 <= j < rows.len() && (#[trigger] rows[i]).0 == (
                #[trigger] rows[j]).0 implies rows[i].1 == rows[j].1 by {
                if i < j {
                } else if j < i {
                    assert(rows[j].0 == rows[i].0);
                }
            }
        }
        Some(ReferenceTable { entries })
    }

    /// The table of the built-in reference data.
    pub fn standard() -> (table: ReferenceTable<'static>)
        ensures
            table@ == standard_mapping(),
    {
        let rows: &'static [(&'static str, bool); REFERENCE_ENTRY_COUNT] = &REFERENCE_ENTRIES;
        proof {
            lemma_standard_rows_consistent();
        }
        ReferenceTable { entries: rows.as_slice() }
    }

    /// The classification stored for `essence`, if the table has it as a key.
    /// The match is exact: no case folding, no wildcard, no parameters.
    pub fn lookup(&self, essence: &str) -> (found: Option<bool>)
        ensures
            found == lookup_in(self@, essence@),
    {
        proof {
            use_type_invariant(self);
        }
        let ghost rows = rows_of(self.entries@);
        let count = self.entries.len();
        let mut at: usize = 0;
        while at < count
            invariant
                at <= count,
                count == self.entries@.len(),
                rows == rows_of(self.entries@),
                consistent(rows),
                forall|i: int| 0 <= i < at ==> (#[trigger] rows[i]).0 != essence@,
            decreases count - at,
        {
            if same_text(self.entries[at].0, essence) {
                proof {
                    lemma_row_in_mapping(rows, at as int);
                }
                return Some(self.entries[at].1);
            }
            at += 1;
        }
        assert(!lists(rows, essence@));
        None
    }
}

} // verus!
