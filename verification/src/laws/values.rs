//! What is read out of JSON values.
use vstd::prelude::*;

use crate::json::{
    as_count, as_flag, entry, items_of, json_of, member, members_of, text_member, text_or_null, Json,
    JsonNumber,
};
use crate::text::{opt_view, views};

verus! {

/// The member under a key is the value of the first entry with that key; there
/// is none where no entry has it, and in values that are no objects.
pub proof fn members_are_entries(entries: Seq<(Seq<char>, Json)>, i: int, key: Seq<char>, json: Json)
    ensures
        0 <= i < entries.len() && entries[i].0 == key && (forall|j: int|
            0 <= j < i ==> (#[trigger] entries[j]).0 != key) ==> member(Json::Object(entries), key)
            == Some(entries[i].1),
        (forall|j: int| 0 <= j < entries.len() ==> (#[trigger] entries[j]).0 != key) ==> member(
            Json::Object(entries),
            key,
        ) is None,
        !(json is Object) ==> member(json, key) is None,
    decreases entries.len(),
{
    if entries.len() > 0 {
        let rest = entries.drop_first();
        members_are_entries(rest, i - 1, key, json);
        assert(forall|j: int| 0 <= j < rest.len() ==> #[trigger] rest[j] == entries[j + 1]);
        if 0 < i < entries.len() && entries[i].0 == key && (forall|j: int|
            0 <= j < i ==> (#[trigger] entries[j]).0 != key) {
            assert(entries[0].0 != key);
            assert(rest[i - 1] == entries[i]);
            assert forall|j: int| 0 <= j < i - 1 implies (#[trigger] rest[j]).0 != key by {
                assert(rest[j] == entries[j + 1]);
            }
            assert(entry(entries, key) == entry(rest, key));
        }
        if forall|j: int| 0 <= j < entries.len() ==> (#[trigger] entries[j]).0 != key {
            assert(entries[0].0 != key);
            assert forall|j: int| 0 <= j < rest.len() implies (#[trigger] rest[j]).0 != key by {
                assert(rest[j] == entries[j + 1]);
            }
        }
    }
}

/// A text is read where a string stands, and is that string; a count is read
/// where a non-negative integer stands, and a flag where a truth value stands.
pub proof fn only_the_right_kind_is_read(json: Json, key: Seq<char>, text: Seq<char>, n: u64, b: bool)
    ensures
        text_member(json, key) == Some(text) <==> member(json, key) == Some(Json::Str(text)),
        as_count(member(json, key)) == Some(n) <==> member(json, key) == Some(
            Json::Number(JsonNumber::PosInt(n)),
        ),
        as_flag(member(json, key)) == Some(b) <==> member(json, key) == Some(Json::Bool(b)),
        text_or_null(Some(text)) == Json::Str(text),
        text_or_null(None) == Json::Null,
{
}

/// Lists are seen item by item: texts, members and values.
pub proof fn lists_are_seen_item_by_item(
    texts: Seq<String>,
    members: Seq<(String, serde_json::Value)>,
    values: Seq<serde_json::Value>,
    i: int,
)
    ensures
        views(texts).len() == texts.len(),
        0 <= i < texts.len() ==> views(texts)[i] == texts[i]@,
        members_of(members).len() == members.len(),
        0 <= i < members.len() ==> members_of(members)[i] == (members[i].0@, json_of(members[i].1)),
        items_of(values).len() == values.len(),
        0 <= i < values.len() ==> items_of(values)[i] == json_of(values[i]),
{
}

/// A text that may be missing is seen as it is where it is there.
pub proof fn texts_are_seen_where_they_are(text: String)
    ensures
        opt_view(Some(text)) == Some(text@),
        opt_view(None) is None,
{
}

} // verus!
