//! What holds of the classifier for every input, proved from the contracts
//! of the other modules.

use vstd::prelude::*;

use crate::audit::lemma_reference_keys_normalized;
use crate::classifier::classification;
use crate::compressible;
use crate::essence::{
    essence_text, is_normalized, is_parameter_text, lemma_essence_ignores_case,
    lemma_essence_of_normalized, mime_accepts, parsed_essence, same_up_to_case,
};
use crate::registry::REFERENCE_ENTRIES;
use crate::table::{lists, lookup_in, rows_of, standard_mapping};

verus! {

/// Determinism: the answer is a function of the content type. The same text
/// gets the same answer, whenever and however often it is asked.
pub proof fn law_same_input_same_answer(first: Seq<char>, second: Seq<char>)
    requires
        first == second,
    ensures
        compressible(first) == compressible(second),
{
}

/// The answer depends on the parsed essence alone: two content types with the
/// same essence, or both without one, get the same answer from any table.
pub proof fn law_answer_depends_on_essence(
    mapping: Map<Seq<char>, bool>,
    first: Seq<char>,
    second: Seq<char>,
)
    requires
        parsed_essence(first) == parsed_essence(second),
    ensures
        classification(mapping, parsed_essence(first)) == classification(
            mapping,
            parsed_essence(second),
        ),
{
}

/// Parameters do not change the classification: a content type made of a key
/// of the table and parameters that the parser accepts gets the value stored
/// for that key.
pub proof fn law_parameters_ignored(
    mapping: Map<Seq<char>, bool>,
    key: Seq<char>,
    params: Seq<char>,
)
    requires
        mapping.contains_key(key),
        is_normalized(key),
        is_parameter_text(params),
        mime_accepts(key + params),
    ensures
        classification(mapping, parsed_essence(key + params)) == mapping[key],
{
    lemma_essence_of_normalized(key, params);
}

/// Parameters do not change the classification by the built-in table: a key
/// of that table, followed by parameters that the parser accepts, gets the
/// value stored for the key.
pub proof fn law_parameters_ignored_by_standard_table(key: Seq<char>, params: Seq<char>)
    requires
        standard_mapping().contains_key(key),
        is_parameter_text(params),
        mime_accepts(key + params),
    ensures
        compressible(key + params) == standard_mapping()[key],
{
    let rows = rows_of(REFERENCE_ENTRIES@);
    assert(lists(rows, key));
    let i = choose|i: int| 0 <= i < rows.len() && (#[trigger] rows[i]).0 == key;
    lemma_reference_keys_normalized();
    assert(REFERENCE_ENTRIES@[i].0@ == key);
    law_parameters_ignored(standard_mapping(), key, params);
}

/// Letter case does not change the classification: of two content types that
/// differ only in the case of ASCII letters, and that the parser treats
/// alike, both get the same answer.
pub proof fn law_letter_case_ignored(
    mapping: Map<Seq<char>, bool>,
    first: Seq<char>,
    second: Seq<char>,
)
    requires
        same_up_to_case(first, second),
        mime_accepts(first) == mime_accepts(second),
    ensures
        classification(mapping, parsed_essence(first)) == classification(
            mapping,
            parsed_essence(second),
        ),
{
    lemma_essence_ignores_case(first, second);
}

/// What is not a media type is not compressible.
pub proof fn law_rejected_is_incompressible(content_type: Seq<char>)
    requires
        !mime_accepts(content_type),
    ensures
        !compressible(content_type),
{
}

/// The table is an allow-list: a content type is compressible exactly when
/// it is a media type and the table stores `true` for the lower-cased text
/// before its first `;`.
pub proof fn law_compressible_iff_listed(content_type: Seq<char>)
    ensures
        compressible(content_type) <==> mime_accepts(content_type) && lookup_in(
            standard_mapping(),
            essence_text(content_type),
        ) == Some(true),
{
}

} // verus!
