//! Channel adapters, and their registration from configuration.
use vstd::prelude::*;

use crate::makepad_channel::{ChannelView, MakepadChannel};

pub mod makepad;

verus! {

/// The channels that the gateway runs.
pub struct ChannelManager {
    channels: Vec<MakepadChannel>,
}

/// A channel in the configuration.
pub struct ChannelEntry {
    pub settings: serde_json::Value,
}

/// The models of a list of channels.
pub open spec fn channels_view(channels: Seq<MakepadChannel>) -> Seq<ChannelView> {
    channels.map_values(|c: MakepadChannel| c@)
}

impl View for ChannelManager {
    type V = Seq<ChannelView>;

    closed spec fn view(&self) -> Seq<ChannelView> {
        channels_view(self.channels@)
    }
}

impl ChannelManager {
    pub fn new() -> (r: Self)
        ensures
            r@ == Seq::<ChannelView>::empty(),
    {
        let r = ChannelManager { channels: Vec::new() };
        assert(r@ =~= Seq::<ChannelView>::empty());
        r
    }

    /// Adds a channel behind those that are there.
    pub fn register(&mut self, channel: MakepadChannel)
        ensures
            final(self)@ == old(self)@.push(channel@),
    {
        let ghost before = self@;
        self.channels.push(channel);
        assert(self@ =~= before.push(channel@));
    }

    /// The registered channels, in the order of their registration.
    pub fn into_channels(self) -> (r: Vec<MakepadChannel>)
        ensures
            channels_view(r@) == self@,
    {
        self.channels
    }
}

} // verus!
