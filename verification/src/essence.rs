//! From a content type to its essence: the "type/subtype" part, in lower
//! case, without parameters. The grammar of media types is the `mime` crate's
//! business; this module says what the library relies on.

use vstd::prelude::*;

verus! {

/// An ASCII capital letter becomes its small letter; every other character
/// stays as it is.
pub open spec fn ascii_lowercase(c: char) -> char {
    if 'A' <= c <= 'Z' {
        ((c as u32) + 32) as char
    } else {
        c
    }
}

/// The text of `content_type` before its first `;`, in ASCII lower case: the
/// whole text where it holds no `;`.
pub open spec fn essence_text(content_type: Seq<char>) -> Seq<char>
    decreases content_type.len(),
{
    if content_type.len() == 0 || content_type[0] == ';' {
        Seq::empty()
    } else {
        seq![ascii_lowercase(content_type[0])] + essence_text(content_type.drop_first())
    }
}

/// A text in the form of an essence: no `;`, and no ASCII capital letter.
pub open spec fn is_normalized(text: Seq<char>) -> bool {
    forall|i: int|
        0 <= i < text.len() ==> (#[trigger] text[i]) != ';' && ascii_lowercase(text[i]) == text[i]
}

/// Whether `params` can follow an essence: it is empty, or it opens with `;`.
pub open spec fn is_parameter_text(params: Seq<char>) -> bool {
    params.len() > 0 ==> params[0] == ';'
}

/// Two texts that differ at most in the case of their ASCII letters.
pub open spec fn same_up_to_case(a: Seq<char>, b: Seq<char>) -> bool {
    &&& a.len() == b.len()
    &&& forall|i: int|
        0 <= i < a.len() ==> ascii_lowercase(#[trigger] a[i]) == ascii_lowercase(#[trigger] b[i])
}

/// Whether `mime` accepts `content_type` as a media type, that is, whether
/// `<mime::Mime as FromStr>::from_str` returns `Ok` for it.
pub uninterp spec fn mime_accepts(content_type: Seq<char>) -> bool;

/// The essence that parsing `content_type` yields, or nothing where it is no
/// media type.
pub open spec fn parsed_essence(content_type: Seq<char>) -> Option<Seq<char>> {
    if mime_accepts(content_type) {
        Some(essence_text(content_type))
    } else {
        None
    }
}

/// The essence of a normalized text followed by parameters is that text.
pub proof fn lemma_essence_of_normalized(key: Seq<char>, params: Seq<char>)
    requires
        is_normalized(key),
        is_parameter_text(params),
    ensures
        essence_text(key + params) == key,
    decreases key.len(),
{
    let whole = key + params;
    if key.len() == 0 {
        assert(whole =~= params);
        assert(essence_text(whole) =~= key);
    } else {
        let rest = key.drop_first();
        assert(whole[0] == key[0]);
        assert(whole.drop_first() =~= rest + params);
        assert forall|i: int| 0 <= i < rest.len() implies (#[trigger] rest[i]) != ';'
            && ascii_lowercase(rest[i]) == rest[i] by {
            assert(rest[i] == key[i + 1]);
        }
        lemma_essence_of_normalized(rest, params);
        assert(essence_text(whole) =~= key);
    }
}

/// Texts that differ only in letter case have the same essence.
pub proof fn lemma_essence_ignores_case(a: Seq<char>, b: Seq<char>)
    requires
        same_up_to_case(a, b),
    ensures
        essence_text(a) == essence_text(b),
    decreases a.len(),
{
    if a.len() > 0 {
        assert(ascii_lowercase(a[0]) == ascii_lowercase(b[0]));
        assert((a[0] == ';') == (b[0] == ';'));
        let a_rest = a.drop_first();
        let b_rest = b.drop_first();
        assert forall|i: int| 0 <= i < a_rest.len() implies ascii_lowercase(#[trigger] a_rest[i])
            == ascii_lowercase(#[trigger] b_rest[i]) by {
            assert(a_rest[i] == a[i + 1]);
            assert(b_rest[i] == b[i + 1]);
        }
        lemma_essence_ignores_case(a_rest, b_rest);
    }
}

/// An essence is itself normalized: it holds no `;` and no capital letter.
pub proof fn lemma_essence_is_normalized(content_type: Seq<char>)
    ensures
        is_normalized(essence_text(content_type)),
    decreases content_type.len(),
{
    if content_type.len() == 0 || content_type[0] == ';' {
    } else {
        let rest = essence_text(content_type.drop_first());
        lemma_essence_is_normalized(content_type.drop_first());
        let whole = essence_text(content_type);
        assert forall|i: int| 0 <= i < whole.len() implies (#[trigger] whole[i]) != ';'
            && ascii_lowercase(whole[i]) == whole[i] by {
            if i > 0 {
                assert(whole[i] == rest[i - 1]);
            }
        }
    }
}

/// Parses `content_type` with `<mime::Mime as FromStr>::from_str` and, where
/// that succeeds, takes the result's `Mime::essence_str`.
///
/// Trusted, not proved: that the outcome depends on the text alone, and that
/// the essence of an accepted text is that text up to its first `;` (all of it
/// where there is none) with ASCII letters in lower case. In the parser every
/// character before the first `;` has to be a token character, `/` or `+`, and
/// the parsed value keeps the lower-cased source and the place of that `;`.
#[verifier::external_body]
fn parse_essence(content_type: &str) -> (essence: Option<String>)
    ensures
        essence is Some <==> mime_accepts(content_type@),
        essence matches Some(text) ==> text@ == essence_text(content_type@),
{
    match content_type.parse::<mime::Mime>() {
        Ok(media_type) => Some(media_type.essence_str().to_owned()),
        Err(_) => None,
    }
}

/// The essence of `content_type`: `None` where it is not a media type.
pub fn essence_of(content_type: &str) -> (essence: Option<String>)
    ensures
        essence is Some <==> parsed_essence(content_type@) is Some,
        essence matches Some(text) ==> parsed_essence(content_type@) == Some(text@)
            && is_normalized(text@),
{
    proof {
        lemma_essence_is_normalized(content_type@);
    }
    parse_essence(content_type)
}

} // verus!
