//! What a configuration entry comes to.
use vstd::prelude::*;

use crate::adapters::makepad::configured;
use crate::json::{member, text_member, Json, JsonNumber};
use crate::makepad_channel::{first_action, StartActionView};

verus! {

/// A text under a key, or another where there is none.
pub open spec fn given_or(settings: Json, key: Seq<char>, other: Seq<char>) -> Seq<char> {
    if text_member(settings, key) is Some {
        text_member(settings, key)->Some_0
    } else {
        other
    }
}

/// Each setting is taken over by itself, as it is given, whatever the other
/// settings are; and each has its own default.
pub proof fn settings_are_taken_over_one_by_one(settings: Json)
    ensures
        ({
            let channel = configured(settings);
            &&& channel.host == given_or(settings, "host"@, "127.0.0.1"@)
            &&& channel.default_chat_id == given_or(settings, "default_chat_id"@, "makepad"@)
            &&& channel.host_binary == text_member(settings, "host_binary"@)
            &&& channel.harness_binary == text_member(settings, "harness_binary"@)
            &&& member(settings, "allow_multiple"@) matches Some(Json::Bool(b))
                ==> channel.allow_multiple == b
            &&& !(member(settings, "allow_multiple"@) matches Some(Json::Bool(_)))
                ==> channel.allow_multiple
            &&& member(settings, "port"@) matches Some(Json::Number(JsonNumber::PosInt(n)))
                ==> channel.port == n % 65536
            &&& !(member(settings, "port"@) matches Some(Json::Number(JsonNumber::PosInt(_))))
                ==> channel.port == 2341
            &&& !channel.shutdown
            &&& channel.bound_addr is None
        }),
{
}

/// Settings that agree on a key give channels that agree on what it is for.
pub proof fn settings_do_not_interfere(a: Json, b: Json)
    ensures
        member(a, "port"@) == member(b, "port"@) ==> configured(a).port == configured(b).port,
        member(a, "host"@) == member(b, "host"@) ==> configured(a).host == configured(b).host,
        member(a, "default_chat_id"@) == member(b, "default_chat_id"@) ==> configured(
            a,
        ).default_chat_id == configured(b).default_chat_id,
        member(a, "allow_multiple"@) == member(b, "allow_multiple"@) ==> configured(
            a,
        ).allow_multiple == configured(b).allow_multiple,
        member(a, "host_binary"@) == member(b, "host_binary"@) ==> configured(a).host_binary
            == configured(b).host_binary,
        member(a, "harness_binary"@) == member(b, "harness_binary"@) ==> configured(
            a,
        ).harness_binary == configured(b).harness_binary,
{
}

/// A channel with a harness in its settings launches that harness when it
/// starts, and one without binds at once.
pub proof fn configured_harnesses_are_launched(settings: Json)
    ensures
        text_member(settings, "harness_binary"@) matches Some(path) ==> first_action(
            configured(settings),
        ) == StartActionView::LaunchHarness(path),
        text_member(settings, "harness_binary"@) is None ==> first_action(configured(settings))
            is Bind,
{
}

} // verus!
