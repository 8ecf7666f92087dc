//! Decides whether content of a given media type is worth passing through a
//! general-purpose compressor such as gzip, brotli or deflate.
//!
//! The decision is a lookup: the content type is parsed, its parameters are
//! dropped, and what is left (the essence) is searched in a fixed table of
//! compressible media types. Whatever does not parse, and whatever the table
//! does not list, is taken as not compressible.

use vstd::prelude::*;

pub mod audit;
pub mod classifier;
pub mod essence;
pub mod laws;
pub mod registry;
pub mod table;
pub mod text;

use crate::classifier::{classification, classify};
use crate::essence::parsed_essence;
use crate::table::{standard_mapping, ReferenceTable};

verus! {

/// Whether the built-in table classifies `content_type` as compressible.
pub open spec fn compressible(content_type: Seq<char>) -> bool {
    classification(standard_mapping(), parsed_essence(content_type))
}

/// Whether content of the media type `content_type` is compressible. Defined
/// for every string: one that is no media type, or one whose essence the
/// built-in table does not list, is not compressible.
pub fn is_compressible(content_type: String) -> (answer: bool)
    ensures
        answer == compressible(content_type@),
{
    let table = ReferenceTable::standard();
    classify(&table, content_type.as_str())
}

} // verus!
