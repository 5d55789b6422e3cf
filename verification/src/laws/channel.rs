//! How the channel starts, whom it knows, and what it hears from the harness.
use vstd::prelude::*;

use super::texts::{decimals_stand_for_their_number, value_of};
use crate::adapters::channels_view;
use crate::makepad_channel::{
    after_event, connection_id, default_channel, first_action, harness_step, listen_address,
    next_action, numbered, ChannelView, HarnessStepView, MakepadChannel, SocketEvent,
    StartActionView, StartEvent,
};
use crate::text::{decimal, opt_view};

verus! {

/// A new channel listens on the local machine at its port, belongs to the chat
/// `makepad`, takes several hosts, and starts nothing.
pub proof fn new_channels_are_plain(port: u16)
    ensures
        ({
            let channel = default_channel(port);
            &&& channel.port == port
            &&& channel.host == "127.0.0.1"@
            &&& channel.default_chat_id == "makepad"@
            &&& channel.allow_multiple
            &&& !channel.shutdown
            &&& channel.host_binary is None
            &&& channel.harness_binary is None
            &&& channel.bound_addr is None
        }),
{
}

/// A channel is seen as it is, field by field, and channels in their order.
pub proof fn channels_are_seen_whole(
    channel: MakepadChannel,
    channels: Seq<MakepadChannel>,
    i: int,
)
    ensures
        channel@.port == channel.port,
        channel@.host == channel.host@,
        channel@.default_chat_id == channel.default_chat_id@,
        channel@.allow_multiple == channel.allow_multiple,
        channel@.shutdown == channel.shutdown,
        channel@.host_binary == opt_view(channel.host_binary),
        channel@.harness_binary == opt_view(channel.harness_binary),
        channel@.bound_addr == opt_view(channel.bound_addr),
        channels_view(channels).len() == channels.len(),
        0 <= i < channels.len() ==> channels_view(channels)[i] == channels[i]@,
{
}

/// The address is the host as it was given, a colon, and the digits of the port.
pub proof fn addresses_hold_host_and_port(channel: ChannelView)
    ensures
        ({
            let address = listen_address(channel);
            let n = channel.host.len() as int;
            &&& address.take(n) == channel.host
            &&& address.len() > n + 1
            &&& address[n] == ':'
            &&& value_of(address.skip(n + 1)) == channel.port
            &&& forall|i: int| n < i < address.len() ==> '0' <= #[trigger] address[i] <= '9'
        }),
{
    reveal_strlit(":");
    let address = listen_address(channel);
    let n = channel.host.len() as int;
    let digits = decimal(channel.port as nat);
    decimals_stand_for_their_number(channel.port as nat);
    assert(address.take(n) =~= channel.host);
    assert(address.skip(n + 1) =~= digits);
    assert forall|i: int| n < i < address.len() implies '0' <= #[trigger] address[i] <= '9' by {
        assert(address[i] == digits[i - n - 1]);
    }
}

/// Two channels with different ports on the same host listen at different
/// addresses.
pub proof fn ports_tell_addresses_apart(a: ChannelView, b: ChannelView)
    requires
        a.host == b.host,
        a.port != b.port,
    ensures
        listen_address(a) != listen_address(b),
{
    addresses_hold_host_and_port(a);
    addresses_hold_host_and_port(b);
}

/// A channel with a harness launches it before it binds; one without binds at
/// once.
pub proof fn harnesses_come_first(channel: ChannelView)
    ensures
        channel.harness_binary matches Some(path) ==> first_action(channel)
            == StartActionView::LaunchHarness(path),
        channel.harness_binary is None ==> first_action(channel) == StartActionView::Bind(
            listen_address(channel),
        ),
{
}

/// Step by step: a harness is given four seconds; whether it came up or not, the
/// channel binds; once bound it serves, and then it is finished.
pub proof fn starting_goes_in_order(channel: ChannelView, address: String)
    ensures
        next_action(channel, StartEvent::HarnessLaunched) == (StartActionView::AwaitHarness {
            seconds: 4,
        }),
        next_action(channel, StartEvent::HarnessAwaited) == StartActionView::Bind(
            listen_address(channel),
        ),
        next_action(channel, StartEvent::HarnessFailed) == StartActionView::Bind(
            listen_address(channel),
        ),
        next_action(channel, StartEvent::Bound(address)) == StartActionView::Serve,
        next_action(channel, StartEvent::Served) == StartActionView::Finished,
{
}

/// A channel that cannot run says why.
pub proof fn failures_to_start_are_told(channel: ChannelView, text: String)
    ensures
        next_action(channel, StartEvent::AddressInvalid) == StartActionView::Failed(
            "invalid address: "@ + listen_address(channel),
        ),
        next_action(channel, StartEvent::BindFailed(text)) == StartActionView::Failed(
            "failed to bind to "@ + text@,
        ),
        next_action(channel, StartEvent::AddressUnknown(text)) == StartActionView::Failed(text@),
        next_action(channel, StartEvent::ServeFailed) == StartActionView::Failed(
            "Makepad channel server failed"@,
        ),
{
}

/// While it starts, a channel changes in one way only: it remembers the address
/// that it is bound to.
pub proof fn only_the_bound_address_changes(
    channel: ChannelView,
    event: StartEvent,
    address: String,
)
    ensures
        !(event is Bound) ==> after_event(channel, event) == channel,
        ({
            let after = after_event(channel, StartEvent::Bound(address));
            &&& after.bound_addr == Some(address@)
            &&& after.port == channel.port
            &&& after.host == channel.host
            &&& after.default_chat_id == channel.default_chat_id
            &&& after.allow_multiple == channel.allow_multiple
            &&& after.shutdown == channel.shutdown
            &&& after.host_binary == channel.host_binary
            &&& after.harness_binary == channel.harness_binary
        }),
{
}

/// The identifier of a connection is `conn-` and its number; connections are
/// numbered from one, in the order in which they came.
pub proof fn connections_are_numbered(number: nat, count: nat, i: int)
    ensures
        connection_id(number).take(5) == "conn-"@,
        value_of(connection_id(number).skip(5)) == number,
        numbered(count).len() == count,
        0 <= i < count ==> numbered(count)[i] == "conn-"@ + decimal((i + 1) as nat),
{
    reveal_strlit("conn-");
    decimals_stand_for_their_number(number);
    assert(connection_id(number).take(5) =~= "conn-"@);
    assert(connection_id(number).skip(5) =~= decimal(number));
}

/// What comes first from the harness is passed over but for its text, which is
/// its welcome; then each text is handled, whole, until the session ends.
pub proof fn harness_sessions_go_in_order(text: String, welcomed: bool)
    ensures
        harness_step(false, SocketEvent::Text(text)) == HarnessStepView::Welcome(text@),
        harness_step(true, SocketEvent::Text(text)) == HarnessStepView::Handle(text@),
        harness_step(true, SocketEvent::Close) == HarnessStepView::Stop,
        harness_step(true, SocketEvent::Failed) == HarnessStepView::Stop,
        harness_step(true, SocketEvent::Ended) == HarnessStepView::Stop,
        harness_step(false, SocketEvent::Close) == HarnessStepView::Skip,
        harness_step(false, SocketEvent::Failed) == HarnessStepView::Skip,
        harness_step(false, SocketEvent::Ended) == HarnessStepView::Skip,
        harness_step(welcomed, SocketEvent::Binary) == HarnessStepView::Skip,
        harness_step(welcomed, SocketEvent::Ping) == HarnessStepView::Skip,
        harness_step(welcomed, SocketEvent::Other) == HarnessStepView::Skip,
{
}

} // verus!
