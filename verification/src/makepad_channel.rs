//! The Makepad channel: where it listens, who is connected, how it starts.
use vstd::prelude::*;

use crate::inbound::CHANNEL_NAME;
use crate::json::{json_text, parsed_json, Json};
use crate::protocol::{build_response_message, optional, tag};
use crate::text;
use crate::text::{decimal, decimal_determines, opt_view, views};

verus! {

/// The channel between the agent and a Makepad host.
#[derive(Debug)]
pub struct MakepadChannel {
    /// Port to listen on for WebSocket connections.
    pub port: u16,
    /// Host to bind to.
    pub host: String,
    /// Chat that messages without a chat of their own belong to.
    pub default_chat_id: String,
    /// Whether several hosts may be connected at once.
    pub allow_multiple: bool,
    /// Whether the channel has been asked to stop.
    pub shutdown: bool,
    /// Path of the Makepad host binary.
    pub host_binary: Option<String>,
    /// Path of the harness binary.
    pub harness_binary: Option<String>,
    /// The address that the server is bound to.
    pub bound_addr: Option<String>,
}

/// The model of a channel.
#[verifier::ext_equal]
pub struct ChannelView {
    pub port: u16,
    pub host: Seq<char>,
    pub default_chat_id: Seq<char>,
    pub allow_multiple: bool,
    pub shutdown: bool,
    pub host_binary: Option<Seq<char>>,
    pub harness_binary: Option<Seq<char>>,
    pub bound_addr: Option<Seq<char>>,
}

impl View for MakepadChannel {
    type V = ChannelView;

    open spec fn view(&self) -> ChannelView {
        ChannelView {
            port: self.port,
            host: self.host@,
            default_chat_id: self.default_chat_id@,
            allow_multiple: self.allow_multiple,
            shutdown: self.shutdown,
            host_binary: opt_view(self.host_binary),
            harness_binary: opt_view(self.harness_binary),
            bound_addr: opt_view(self.bound_addr),
        }
    }
}

/// How a channel fares.
#[derive(Debug)]
pub enum ChannelHealth {
    Healthy,
    Degraded(String),
}

/// A channel on a port, with everything else as it is by default.
pub open spec fn default_channel(port: u16) -> ChannelView {
    ChannelView {
        port,
        host: "127.0.0.1"@,
        default_chat_id: CHANNEL_NAME@,
        allow_multiple: true,
        shutdown: false,
        host_binary: None,
        harness_binary: None,
        bound_addr: None,
    }
}

/// The address to listen on.
pub open spec fn listen_address(channel: ChannelView) -> Seq<char> {
    channel.host + ":"@ + decimal(channel.port as nat)
}

/// The message that carries a whole response of the agent.
pub open spec fn final_response(content: Seq<char>) -> Json {
    Json::Object(
        tag("response"@) + seq![("content"@, Json::Str(content))] + optional(
            "stream_final"@,
            Some(Json::Bool(true)),
        ),
    )
}

/// What is to be done next while the channel starts.
#[derive(Debug)]
pub enum StartAction {
    /// Start the harness at this path.
    LaunchHarness(String),
    /// Wait, then connect to the harness in the background.
    AwaitHarness { seconds: u64 },
    /// Read this text as an address and bind to it.
    Bind(String),
    /// Serve until the channel is asked to stop.
    Serve,
    /// The channel has run to its end.
    Finished,
    /// The channel could not run, with the reason.
    Failed(String),
}

/// What happened while the channel starts.
#[derive(Debug)]
pub enum StartEvent {
    HarnessLaunched,
    HarnessFailed,
    HarnessAwaited,
    AddressInvalid,
    /// Binding to the address failed.
    BindFailed(String),
    /// The bound address could not be learnt, with the reason.
    AddressUnknown(String),
    /// The server is bound to the address.
    Bound(String),
    Served,
    ServeFailed,
}

/// The model of what is to be done next.
#[verifier::ext_equal]
pub enum StartActionView {
    LaunchHarness(Seq<char>),
    AwaitHarness { seconds: u64 },
    Bind(Seq<char>),
    Serve,
    Finished,
    Failed(Seq<char>),
}

impl View for StartAction {
    type V = StartActionView;

    open spec fn view(&self) -> StartActionView {
        match self {
            StartAction::LaunchHarness(path) => StartActionView::LaunchHarness(path@),
            StartAction::AwaitHarness { seconds } => StartActionView::AwaitHarness {
                seconds: *seconds,
            },
            StartAction::Bind(address) => StartActionView::Bind(address@),
            StartAction::Serve => StartActionView::Serve,
            StartAction::Finished => StartActionView::Finished,
            StartAction::Failed(reason) => StartActionView::Failed(reason@),
        }
    }
}

/// What is done first: the harness is launched where there is one.
pub open spec fn first_action(channel: ChannelView) -> StartActionView {
    match channel.harness_binary {
        Some(path) => StartActionView::LaunchHarness(path),
        None => StartActionView::Bind(listen_address(channel)),
    }
}

/// What is done after an event. A harness that cannot be launched does not keep
/// the channel from listening.
pub open spec fn next_action(channel: ChannelView, event: StartEvent) -> StartActionView {
    match event {
        StartEvent::HarnessLaunched => StartActionView::AwaitHarness { seconds: 4 },
        StartEvent::HarnessFailed => StartActionView::Bind(listen_address(channel)),
        StartEvent::HarnessAwaited => StartActionView::Bind(listen_address(channel)),
        StartEvent::AddressInvalid => StartActionView::Failed(
            "invalid address: "@ + listen_address(channel),
        ),
        StartEvent::BindFailed(address) => StartActionView::Failed(
            "failed to bind to "@ + address@,
        ),
        StartEvent::AddressUnknown(reason) => StartActionView::Failed(reason@),
        StartEvent::Bound(_) => StartActionView::Serve,
        StartEvent::Served => StartActionView::Finished,
        StartEvent::ServeFailed => StartActionView::Failed("Makepad channel server failed"@),
    }
}

/// The channel after an event: a bound address is remembered.
pub open spec fn after_event(channel: ChannelView, event: StartEvent) -> ChannelView {
    match event {
        StartEvent::Bound(address) => ChannelView { bound_addr: Some(address@), ..channel },
        _ => channel,
    }
}

impl MakepadChannel {
    pub fn new(port: u16) -> (r: Self)
        ensures
            r@ == default_channel(port),
    {
        MakepadChannel {
            port,
            host: "127.0.0.1".to_string(),
            default_chat_id: CHANNEL_NAME.to_string(),
            allow_multiple: true,
            shutdown: false,
            host_binary: None,
            harness_binary: None,
            bound_addr: None,
        }
    }

    pub fn with_host(self, host: &str) -> (r: Self)
        ensures
            r@ == (ChannelView { host: host@, ..self@ }),
    {
        let mut out = self;
        out.host = host.to_string();
        out
    }

    pub fn with_default_chat_id(self, chat_id: &str) -> (r: Self)
        ensures
            r@ == (ChannelView { default_chat_id: chat_id@, ..self@ }),
    {
        let mut out = self;
        out.default_chat_id = chat_id.to_string();
        out
    }

    pub fn with_allow_multiple(self, allow: bool) -> (r: Self)
        ensures
            r@ == (ChannelView { allow_multiple: allow, ..self@ }),
    {
        let mut out = self;
        out.allow_multiple = allow;
        out
    }

    pub fn with_host_binary(self, binary: &str) -> (r: Self)
        ensures
            r@ == (ChannelView { host_binary: Some(binary@), ..self@ }),
    {
        let mut out = self;
        out.host_binary = Some(binary.to_string());
        out
    }

    pub fn with_harness_binary(self, binary: &str) -> (r: Self)
        ensures
            r@ == (ChannelView { harness_binary: Some(binary@), ..self@ }),
    {
        let mut out = self;
        out.harness_binary = Some(binary.to_string());
        out
    }

    /// The address that the server is bound to, once it has started.
    pub fn bound_address(&self) -> (r: Option<String>)
        ensures
            opt_view(r) == self@.bound_addr,
    {
        match &self.bound_addr {
            Some(address) => Some(address.clone()),
            None => None,
        }
    }

    pub fn name(&self) -> (r: &'static str)
        ensures
            r@ == CHANNEL_NAME@,
    {
        CHANNEL_NAME
    }

    /// The address to listen on: host and port.
    pub fn address(&self) -> (r: String)
        ensures
            r@ == listen_address(self@),
    {
        text::concat3(self.host.as_str(), ":", text::decimal_text(self.port as u64).as_str())
    }

    /// What is to be done first to start the channel.
    pub fn start(&self) -> (r: StartAction)
        ensures
            r@ == first_action(self@),
    {
        match &self.harness_binary {
            Some(path) => StartAction::LaunchHarness(path.clone()),
            None => StartAction::Bind(self.address()),
        }
    }

    /// What is to be done after an event, while the channel starts.
    pub fn start_step(&mut self, event: StartEvent) -> (r: StartAction)
        ensures
            r@ == next_action(old(self)@, event),
            final(self)@ == after_event(old(self)@, event),
    {
        match event {
            StartEvent::HarnessLaunched => StartAction::AwaitHarness { seconds: 4 },
            StartEvent::HarnessFailed => StartAction::Bind(self.address()),
            StartEvent::HarnessAwaited => StartAction::Bind(self.address()),
            StartEvent::AddressInvalid => StartAction::Failed(
                text::concat("invalid address: ", self.address().as_str()),
            ),
            StartEvent::BindFailed(address) => StartAction::Failed(
                text::concat("failed to bind to ", address.as_str()),
            ),
            StartEvent::AddressUnknown(reason) => StartAction::Failed(reason),
            StartEvent::Bound(address) => {
                self.bound_addr = Some(address);
                StartAction::Serve
            },
            StartEvent::Served => StartAction::Finished,
            StartEvent::ServeFailed => StartAction::Failed(
                "Makepad channel server failed".to_string(),
            ),
        }
    }

    /// The text that carries a response of the agent to the connected hosts. The
    /// response is whole, so it is marked as the final one.
    pub fn send(&self, content: &str) -> (r: String)
        ensures
            r@ == json_text(final_response(content@)),
            parsed_json(r@) == Some(final_response(content@)),
    {
        build_response_message(content, Some(true))
    }

    /// Asks the channel to stop.
    pub fn stop(&mut self)
        ensures
            final(self)@ == (ChannelView { shutdown: true, ..old(self)@ }),
    {
        self.shutdown = true;
    }

    /// A channel is healthy once its server is bound.
    pub fn health_check(&self) -> (r: ChannelHealth)
        ensures
            match r {
                ChannelHealth::Healthy => self@.bound_addr is Some,
                ChannelHealth::Degraded(reason) => self@.bound_addr is None && reason@
                    == "not yet bound"@,
            },
    {
        match &self.bound_addr {
            Some(_) => ChannelHealth::Healthy,
            None => ChannelHealth::Degraded("not yet bound".to_string()),
        }
    }

    /// The channel takes large messages: there is no practical limit.
    pub fn max_message_length(&self) -> (r: usize)
        ensures
            r == 100_000,
    {
        100_000
    }

    pub fn supports_edit(&self) -> (r: bool)
        ensures
            r,
    {
        true
    }
}

/// The hosts that are connected, by the identifiers of their connections.
#[derive(Debug)]
pub struct Connections {
    ids: Vec<String>,
}

/// The identifier of a connection, from how many there are with it.
pub open spec fn connection_id(number: nat) -> Seq<char> {
    "conn-"@ + decimal(number)
}

/// The first connections, numbered from one.
pub open spec fn numbered(count: nat) -> Seq<Seq<char>> {
    Seq::new(count, |i: int| connection_id((i + 1) as nat))
}

impl View for Connections {
    type V = Seq<Seq<char>>;

    closed spec fn view(&self) -> Seq<Seq<char>> {
        views(self.ids@)
    }
}

impl Connections {
    /// Connections are numbered from one, without a gap.
    pub open spec fn wf(self) -> bool {
        self@ == numbered(self@.len())
    }

    pub fn new() -> (r: Self)
        ensures
            r.wf(),
            r@ == Seq::<Seq<char>>::empty(),
    {
        let r = Connections { ids: Vec::new() };
        assert(r@ =~= Seq::<Seq<char>>::empty());
        assert(r@ =~= numbered(0));
        r
    }

    /// How many hosts are connected.
    pub fn len(&self) -> (r: usize)
        ensures
            r == self@.len(),
    {
        self.ids.len()
    }

    /// Registers a connection and gives it an identifier. Where only one is
    /// allowed, those before it are forgotten.
    pub fn register(&mut self, allow_multiple: bool) -> (r: String)
        requires
            old(self).wf(),
            old(self)@.len() < u64::MAX,
        ensures
            final(self).wf(),
            allow_multiple ==> r@ == connection_id(old(self)@.len() + 1) && final(self)@ == old(
                self,
            )@.push(r@),
            !allow_multiple ==> r@ == connection_id(1) && final(self)@ == seq![r@],
    {
        if !allow_multiple {
            self.ids.clear();
        }
        let ghost before = views(self.ids@);
        assert(!allow_multiple ==> before =~= Seq::<Seq<char>>::empty());
        let number: u64 = self.ids.len() as u64 + 1;
        let id = text::concat("conn-", text::decimal_text(number).as_str());
        self.ids.push(id.clone());
        assert(self@ =~= before.push(id@));
        assert(self@ =~= numbered(self@.len()));
        assert(!allow_multiple ==> self@ =~= seq![id@]);
        id
    }

    /// Takes note that a connection has ended. Where several are allowed, the
    /// others and its own entry stay.
    pub fn disconnect(&mut self, allow_multiple: bool)
        requires
            old(self).wf(),
        ensures
            final(self).wf(),
            final(self)@ == if allow_multiple {
                old(self)@
            } else {
                Seq::<Seq<char>>::empty()
            },
    {
        if !allow_multiple {
            self.ids.clear();
            assert(self@ =~= Seq::<Seq<char>>::empty());
            assert(self@ =~= numbered(0));
        }
    }

    /// Whether a connection is among those that are known.
    pub fn knows(&self, id: &str) -> (r: bool)
        ensures
            r == self@.contains(id@),
    {
        let mut i: usize = 0;
        while i < self.ids.len()
            invariant
                i <= self.ids@.len(),
                forall|k: int| 0 <= k < i ==> self.ids@[k]@ != id@,
            decreases self.ids@.len() - i,
        {
            if text::same_text(self.ids[i].as_str(), id) {
                assert(self@[i as int] == id@);
                return true;
            }
            i = i + 1;
        }
        assert(!self@.contains(id@));
        false
    }

    /// The answer to a health request.
    pub fn health(&self) -> (r: &'static str)
        ensures
            r@ == if self@.len() == 0 {
                "ok (no connections)"@
            } else {
                "ok"@
            },
    {
        if self.ids.len() == 0 {
            "ok (no connections)"
        } else {
            "ok"
        }
    }
}

/// Two connections bear different identifiers.
pub proof fn connection_ids_are_unique(connections: Connections, i: int, j: int)
    requires
        connections.wf(),
        0 <= i < j < connections@.len(),
    ensures
        connections@[i] != connections@[j],
{
    let a = (i + 1) as nat;
    let b = (j + 1) as nat;
    if connection_id(a) == connection_id(b) {
        let prefix = "conn-"@;
        assert(connection_id(a).skip(prefix.len() as int) =~= decimal(a));
        assert(connection_id(b).skip(prefix.len() as int) =~= decimal(b));
        decimal_determines(a, b);
    }
}

/// What comes in over a WebSocket.
#[derive(Debug)]
pub enum SocketEvent {
    Text(String),
    Binary,
    Ping,
    Close,
    Failed,
    Ended,
    Other,
}

/// What to do with it.
#[derive(Debug)]
pub enum SocketStep {
    /// Handle the text and go on.
    Handle(String),
    /// Go on.
    Skip,
    /// The connection is over.
    Stop,
}

/// Decides how to go on after something came in over a WebSocket: a text is
/// handled, a close, an error and the end are the end, all else is passed over.
pub fn socket_step(event: SocketEvent) -> (r: SocketStep)
    ensures
        match event {
            SocketEvent::Text(text) => r matches SocketStep::Handle(handled) && handled@ == text@,
            SocketEvent::Close => r is Stop,
            SocketEvent::Failed => r is Stop,
            SocketEvent::Ended => r is Stop,
            SocketEvent::Binary => r is Skip,
            SocketEvent::Ping => r is Skip,
            SocketEvent::Other => r is Skip,
        },
{
    match event {
        SocketEvent::Text(text) => SocketStep::Handle(text),
        SocketEvent::Close => SocketStep::Stop,
        SocketEvent::Failed => SocketStep::Stop,
        SocketEvent::Ended => SocketStep::Stop,
        _ => SocketStep::Skip,
    }
}

/// A session with the harness: the first thing that comes is its welcome.
#[derive(Debug)]
pub struct HarnessSession {
    welcomed: bool,
}

/// What to do with what comes from the harness.
#[derive(Debug)]
pub enum HarnessStep {
    /// This is the welcome; it goes no further.
    Welcome(String),
    /// Handle the text and go on.
    Handle(String),
    /// Go on.
    Skip,
    /// The session is over.
    Stop,
}

/// The model of what to do.
#[verifier::ext_equal]
pub enum HarnessStepView {
    Welcome(Seq<char>),
    Handle(Seq<char>),
    Skip,
    Stop,
}

impl View for HarnessStep {
    type V = HarnessStepView;

    open spec fn view(&self) -> HarnessStepView {
        match self {
            HarnessStep::Welcome(text) => HarnessStepView::Welcome(text@),
            HarnessStep::Handle(text) => HarnessStepView::Handle(text@),
            HarnessStep::Skip => HarnessStepView::Skip,
            HarnessStep::Stop => HarnessStepView::Stop,
        }
    }
}

/// What to do with what comes from the harness: whatever comes first is taken
/// for the welcome and goes no further; then texts are handled until the end.
pub open spec fn harness_step(welcomed: bool, event: SocketEvent) -> HarnessStepView {
    match event {
        SocketEvent::Text(text) => if welcomed {
            HarnessStepView::Handle(text@)
        } else {
            HarnessStepView::Welcome(text@)
        },
        SocketEvent::Close | SocketEvent::Failed | SocketEvent::Ended => if welcomed {
            HarnessStepView::Stop
        } else {
            HarnessStepView::Skip
        },
        _ => HarnessStepView::Skip,
    }
}

impl HarnessSession {
    /// The welcome has come.
    pub closed spec fn is_welcomed(self) -> bool {
        self.welcomed
    }

    pub fn new() -> (r: Self)
        ensures
            !r.is_welcomed(),
    {
        HarnessSession { welcomed: false }
    }

    /// Takes in what comes from the harness.
    pub fn step(&mut self, event: SocketEvent) -> (r: HarnessStep)
        ensures
            r@ == harness_step(old(self).is_welcomed(), event),
            final(self).is_welcomed(),
    {
        let welcomed = self.welcomed;
        self.welcomed = true;
        if !welcomed {
            return match event {
                SocketEvent::Text(text) => HarnessStep::Welcome(text),
                _ => HarnessStep::Skip,
            };
        }
        match socket_step(event) {
            SocketStep::Handle(text) => HarnessStep::Handle(text),
            SocketStep::Skip => HarnessStep::Skip,
            SocketStep::Stop => HarnessStep::Stop,
        }
    }
}

/// The welcome of the harness is never handled as a message, and every text
/// behind it is.
pub proof fn the_welcome_is_not_handled(event: SocketEvent)
    ensures
        !(harness_step(false, event) is Handle),
        event matches SocketEvent::Text(text) ==> harness_step(true, event)
            == HarnessStepView::Handle(text@),
{
}

/// How an attempt to stay connected went.
#[derive(Clone, Copy, Debug, PartialEq, Eq, Structural)]
pub enum LinkEvent {
    ConnectFailed,
    SessionEnded,
}

/// What to do about the connection.
#[derive(Clone, Copy, Debug, PartialEq, Eq, Structural)]
pub enum LinkAction {
    /// Wait, then connect again.
    Retry { milliseconds: u64 },
    /// Do not connect again.
    GiveUp,
}

/// The link to the harness is always tried again.
pub fn harness_link_step(_event: LinkEvent) -> (r: LinkAction)
    ensures
        r == (LinkAction::Retry { milliseconds: 2000 }),
{
    LinkAction::Retry { milliseconds: 2000 }
}

} // verus!
