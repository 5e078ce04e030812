//! Strings as the byte sequences that get encoded: views of string lists,
//! UTF-8 bytes, and JSON literals written from `str` values.

use crate::json::array_tail;
use crate::json::json_string;
use crate::json::json_string_array;
use crate::json::push_json_string;
use crate::json::COMMA;
use crate::json::LBRACKET;
use crate::json::RBRACKET;
use vstd::prelude::*;
use vstd::utf8::encode_utf8;
use vstd::utf8::encode_utf8_decode_utf8;

verus! {

/// The views of a list of strings.
pub open spec fn texts(items: Seq<String>) -> Seq<Seq<char>> {
    items.map_values(|s: String| s@)
}

/// The view of an optional string.
pub open spec fn optional_text(item: Option<String>) -> Option<Seq<char>> {
    match item {
        Some(s) => Some(s@),
        None => None,
    }
}

/// The UTF-8 bytes of each string of a list.
pub open spec fn utf8_each(items: Seq<Seq<char>>) -> Seq<Seq<u8>> {
    items.map_values(|s: Seq<char>| encode_utf8(s))
}

/// The JSON string literal of a text: its UTF-8 bytes, escaped, in quotes.
pub open spec fn json_text(s: Seq<char>) -> Seq<u8> {
    json_string(encode_utf8(s))
}

/// The JSON array of the string literals of a list of texts.
pub open spec fn json_text_array(items: Seq<Seq<char>>) -> Seq<u8> {
    json_string_array(utf8_each(items))
}

/// Two texts with the same UTF-8 bytes are the same text.
pub proof fn lemma_utf8_injective(a: Seq<char>, b: Seq<char>)
    requires
        encode_utf8(a) == encode_utf8(b),
    ensures
        a == b,
{
    encode_utf8_decode_utf8(a);
    encode_utf8_decode_utf8(b);
}

/// Two lists of texts with the same UTF-8 bytes, item by item, are the same
/// list.
pub proof fn lemma_utf8_each_injective(a: Seq<Seq<char>>, b: Seq<Seq<char>>)
    requires
        utf8_each(a) == utf8_each(b),
    ensures
        a == b,
{
    assert(a.len() == utf8_each(a).len());
    assert(b.len() == utf8_each(b).len());
    assert forall|i: int| 0 <= i < a.len() implies a[i] == b[i] by {
        assert(utf8_each(a)[i] == encode_utf8(a[i]));
        assert(utf8_each(b)[i] == encode_utf8(b[i]));
        lemma_utf8_injective(a[i], b[i]);
    }
    assert(a =~= b);
}

/// Appends the JSON string literal of `s`.
pub fn push_json_text(out: &mut Vec<u8>, s: &str)
    ensures
        final(out)@ == old(out)@ + json_text(s@),
{
    push_json_string(out, s.as_bytes());
}

/// Appends the JSON array of the string literals of `items`.
pub fn push_json_text_array(out: &mut Vec<u8>, items: &Vec<String>)
    ensures
        final(out)@ == old(out)@ + json_text_array(texts(items@)),
{
    let ghost all = utf8_each(texts(items@));
    out.push(LBRACKET);
    let mut i: usize = 0;
    while i < items.len()
        invariant
            i <= items@.len(),
            all == utf8_each(texts(items@)),
            out@ + array_tail(all, i as int) == old(out)@ + json_string_array(all),
        decreases items@.len() - i,
    {
        let ghost before = out@;
        if i > 0 {
            out.push(COMMA);
        }
        push_json_text(out, items[i].as_str());
        assert(all[i as int] == encode_utf8(items@[i as int]@));
        assert(before + array_tail(all, i as int) =~= out@ + array_tail(all, i + 1));
        i += 1;
    }
    out.push(RBRACKET);
    assert(out@ =~= old(out)@ + json_string_array(all));
}

} // verus!
