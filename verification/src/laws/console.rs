//! What the launcher prints.
use vstd::prelude::*;
use vstd::utf8::{
    decode_utf8, decode_utf8_encode_utf8, decode_utf8_split, encode_scalar, encode_utf8,
    encode_utf8_decode_utf8, encode_utf8_first_scalar, encode_utf8_valid_utf8, is_char_boundary,
    is_char_boundary_start_end_of_seq, pop_first_scalar, valid_utf8_split,
};

use crate::json::{text_member, Json};
use crate::launcher::{clipped, response_line};

verus! {

/// A text that fits is not cut.
pub proof fn short_texts_are_printed_whole(text: Seq<char>, limit: nat)
    requires
        encode_utf8(text).len() <= limit,
    ensures
        clipped(text, limit) == Some(text),
{
    let bytes = encode_utf8(text);
    encode_utf8_valid_utf8(text);
    encode_utf8_decode_utf8(text);
    is_char_boundary_start_end_of_seq(bytes);
    assert(bytes.subrange(0, bytes.len() as int) =~= bytes);
}

/// A text that does not fit is cut after exactly as many bytes as are allowed,
/// and what is left of it is its beginning.
pub proof fn long_texts_are_cut(text: Seq<char>, limit: nat) -> (rest: Seq<char>)
    requires
        encode_utf8(text).len() > limit,
    ensures
        clipped(text, limit) matches Some(start) ==> text == start + rest && encode_utf8(start).len()
            == limit,
{
    let bytes = encode_utf8(text);
    let at = limit as int;
    encode_utf8_valid_utf8(text);
    encode_utf8_decode_utf8(text);
    if is_char_boundary(bytes, at) {
        valid_utf8_split(bytes, at);
        decode_utf8_split(bytes, at);
        decode_utf8_encode_utf8(bytes.subrange(0, at));
    }
    decode_utf8(bytes.subrange(at, bytes.len() as int))
}

/// Wherever the beginning of a text takes as many bytes as are allowed, it is
/// what is printed: only a cut inside a character prints nothing.
pub proof fn cuts_between_characters_are_made(start: Seq<char>, rest: Seq<char>)
    ensures
        clipped(start + rest, encode_utf8(start).len()) == Some(start),
{
    let text = start + rest;
    let bytes = encode_utf8(text);
    let at = encode_utf8(start).len() as int;
    beginnings_end_between_characters(start, rest);
    encode_utf8_decode_utf8(start);
    assert(bytes.subrange(0, at) =~= encode_utf8(start));
}

proof fn beginnings_end_between_characters(start: Seq<char>, rest: Seq<char>)
    ensures
        encode_utf8(start + rest) == encode_utf8(start) + encode_utf8(rest),
        is_char_boundary(encode_utf8(start + rest), encode_utf8(start).len() as int),
    decreases start.len(),
{
    let text = start + rest;
    let bytes = encode_utf8(text);
    encode_utf8_valid_utf8(text);
    if start.len() == 0 {
        assert(text =~= rest);
        assert(encode_utf8(start) + encode_utf8(rest) =~= encode_utf8(rest));
    } else {
        let first = encode_scalar(start[0] as u32);
        assert(text.drop_first() =~= start.drop_first() + rest);
        assert(text[0] == start[0]);
        beginnings_end_between_characters(start.drop_first(), rest);
        encode_utf8_first_scalar(text);
        assert(pop_first_scalar(bytes) =~= encode_utf8(text.drop_first()));
        assert(bytes =~= encode_utf8(start) + encode_utf8(rest));
    }
}

/// The text under a key, or nothing.
pub open spec fn text_under(message: Json, key: Seq<char>) -> Seq<char> {
    if text_member(message, key) is Some {
        text_member(message, key)->Some_0
    } else {
        seq![]
    }
}

/// A status, a response of the user and an error are printed whole.
pub proof fn news_is_printed_whole(text: Seq<char>, message: Json)
    ensures
        text_member(message, "type"@) == Some("status"@) ==> response_line(text, message) == Some(
            "  ← Status: "@ + text_under(message, "status"@),
        ),
        text_member(message, "type"@) == Some("user_response"@) ==> response_line(text, message)
            == Some("  ← User response: "@ + text_under(message, "response"@)),
        text_member(message, "type"@) == Some("error"@) ==> response_line(text, message) == Some(
            "  ← ERROR: "@ + text_under(message, "message"@),
        ),
{
    kinds_of_news();
}

/// A debug response is printed up to a hundred bytes, and any other message up
/// to a hundred and twenty, behind its kind.
pub proof fn other_news_is_printed_cut(text: Seq<char>, message: Json)
    ensures
        text_member(message, "type"@) == Some("debug_response"@) ==> match clipped(
            text_under(message, "result"@),
            100,
        ) {
            Some(start) => response_line(text, message) == Some(
                "  ← Debug: "@ + start + "..."@,
            ),
            None => response_line(text, message) is None,
        },
        ({
            let kind = text_member(message, "type"@);
            let shown = if kind is Some {
                kind->Some_0
            } else {
                "?"@
            };
            kind != Some("status"@) && kind != Some("user_response"@) && kind != Some("error"@)
                && kind != Some("debug_response"@) ==> match clipped(text, 120) {
                Some(start) => response_line(text, message) == Some(
                    "  ← "@ + shown + ": "@ + start,
                ),
                None => response_line(text, message) is None,
            }
        }),
{
    kinds_of_news();
}

proof fn kinds_of_news()
    ensures
        "status"@.len() == 6,
        "user_response"@.len() == 13,
        "error"@.len() == 5,
        "debug_response"@.len() == 14,
        "?"@.len() == 1,
{
    reveal_strlit("status");
    reveal_strlit("user_response");
    reveal_strlit("error");
    reveal_strlit("debug_response");
    reveal_strlit("?");
}

} // verus!
