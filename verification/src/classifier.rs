//! The decision itself: a content type is compressible when it parses as a
//! media type whose essence the table lists as compressible. Everything else
//! is not: what does not parse, and what the table does not know.

use vstd::prelude::*;

use crate::essence::{essence_of, parsed_essence};
use crate::table::{lookup_in, ReferenceTable};

verus! {

/// The classification that `mapping` gives to a parsed essence: the stored
/// value where the essence is a key, `false` where it is none or where there
/// is no essence at all.
pub open spec fn classification(mapping: Map<Seq<char>, bool>, essence: Option<Seq<char>>) -> bool {
    match essence {
        Some(text) => lookup_in(mapping, text) == Some(true),
        None => false,
    }
}

/// An optional essence as text.
pub open spec fn essence_view(essence: Option<&str>) -> Option<Seq<char>> {
    match essence {
        Some(text) => Some(text@),
        None => None,
    }
}

/// Classifies what parsing gave: `essence` is the essence of a content type
/// that parsed, or `None` for one that did not.
pub fn classify_essence(table: &ReferenceTable, essence: Option<&str>) -> (compressible: bool)
    ensures
        compressible == classification(table@, essence_view(essence)),
{
    match essence {
        Some(text) => match table.lookup(text) {
            Some(stored) => stored,
            None => false,
        },
        None => false,
    }
}

/// Classifies `content_type` by `table`: parses it, strips its parameters and
/// looks its essence up.
pub fn classify(table: &ReferenceTable, content_type: &str) -> (compressible: bool)
    ensures
        compressible == classification(table@, parsed_essence(content_type@)),
{
    match essence_of(content_type) {
        Some(text) => classify_essence(table, Some(text.as_str())),
        None => classify_essence(table, None),
    }
}

} // verus!
