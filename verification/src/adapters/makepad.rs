//! Registration of the Makepad channel.
use vstd::prelude::*;

use super::{ChannelEntry, ChannelManager};
use crate::inbound::CHANNEL_NAME;
use crate::json;
use crate::json::{as_count, as_flag, json_of, member, text_member, Json};
use crate::makepad_channel::{ChannelView, MakepadChannel};

verus! {

/// A text of the settings, or another where there is none.
pub open spec fn setting(settings: Json, key: Seq<char>, fallback: Seq<char>) -> Seq<char> {
    match text_member(settings, key) {
        Some(text) => text,
        None => fallback,
    }
}

/// The port of the settings: the low sixteen bits of the number given, or 2341.
pub open spec fn port_setting(settings: Json) -> u16 {
    match as_count(member(settings, "port"@)) {
        Some(n) => (n % 65536) as u16,
        None => 2341,
    }
}

/// The channel that the settings describe.
pub open spec fn configured(settings: Json) -> ChannelView {
    ChannelView {
        port: port_setting(settings),
        host: setting(settings, "host"@, "127.0.0.1"@),
        default_chat_id: setting(settings, "default_chat_id"@, CHANNEL_NAME@),
        allow_multiple: match as_flag(member(settings, "allow_multiple"@)) {
            Some(b) => b,
            None => true,
        },
        shutdown: false,
        host_binary: text_member(settings, "host_binary"@),
        harness_binary: text_member(settings, "harness_binary"@),
        bound_addr: None,
    }
}

fn port_of(n: u64) -> (r: u16)
    ensures
        r == n % 65536,
{
    assert(n as u16 == n % 65536) by (bit_vector);
    #[verifier::truncate]
    (n as u16)
}

/// Registers the Makepad channel that a configuration entry describes.
pub fn register(channel_mgr: &mut ChannelManager, entry: &ChannelEntry) -> (r: Result<(), String>)
    ensures
        r is Ok,
        final(channel_mgr)@ == old(channel_mgr)@.push(configured(json_of(entry.settings))),
{
    let settings = &entry.settings;
    let given_port: Option<u64> = match json::get(settings, "port") {
        Some(value) => json::as_u64(value),
        None => None,
    };
    let port: u16 = match given_port {
        Some(n) => port_of(n),
        None => 2341,
    };
    let host = match json::get_str(settings, "host") {
        Some(host) => host,
        None => "127.0.0.1",
    };
    let default_chat_id = match json::get_str(settings, "default_chat_id") {
        Some(id) => id,
        None => CHANNEL_NAME,
    };
    let given_allow: Option<bool> = match json::get(settings, "allow_multiple") {
        Some(value) => json::as_bool(value),
        None => None,
    };
    let allow_multiple = match given_allow {
        Some(b) => b,
        None => true,
    };
    let mut channel = MakepadChannel::new(port).with_host(host).with_default_chat_id(
        default_chat_id,
    ).with_allow_multiple(allow_multiple);
    if let Some(binary) = json::get_str(settings, "host_binary") {
        channel = channel.with_host_binary(binary);
    }
    if let Some(binary) = json::get_str(settings, "harness_binary") {
        channel = channel.with_harness_binary(binary);
    }
    assert(channel@ =~= configured(json_of(*settings)));
    channel_mgr.register(channel);
    Ok(())
}

} // verus!
