//! The tool that launches a Splash app on the Makepad host.
//!
//! The tool talks to a harness, which owns the host. Where the harness is not
//! running, the tool starts it, waits until it answers, and then sends the app.
use vstd::prelude::*;

use crate::chat::{opt_json, TokenUsage};
use crate::json;
use crate::json::{entry, exact, items_of, json_of, json_text, members_of, parsed_json, Json};
use crate::protocol::tag;
use crate::text;
use crate::text::{contains, joined, opt_view, views};

verus! {

/// Path of the harness binary by default.
pub const DEFAULT_HARNESS_BIN: &'static str =
    "/Users/Gregory/Projects/a2app_harness/target/debug/harness";

/// Where the harness listens.
pub const HARNESS_URL: &'static str = "ws://127.0.0.1:2341";

/// How often the harness is asked whether it is ready.
pub const READY_ATTEMPTS: u32 = 30;

/// How long to wait before each of these, in milliseconds.
pub const READY_PAUSE_MS: u64 = 500;

/// What the result says where the harness does not answer in time.
pub const NOT_READY_TEXT: &'static str = "Harness did not become ready within 15 seconds";

/// The tool. It remembers whether it has started a harness of its own.
#[derive(Debug)]
pub struct LaunchAppTool {
    owns_harness: bool,
}

/// What a tool call gives back.
#[derive(Debug)]
pub struct ToolResult {
    pub output: String,
    pub success: bool,
    /// A file that the call has changed.
    pub file_modified: Option<String>,
    /// Files that are to be sent to the user.
    pub files_to_send: Vec<String>,
    /// Tokens that the call has used.
    pub tokens_used: Option<TokenUsage>,
    pub structured_metadata: Option<serde_json::Value>,
    pub named_outputs: Option<serde_json::Value>,
}

/// The model of what a tool call gives back.
#[verifier::ext_equal]
pub struct ToolResultView {
    pub output: Seq<char>,
    pub success: bool,
    pub file_modified: Option<Seq<char>>,
    pub files_to_send: Seq<Seq<char>>,
    pub tokens_used: Option<TokenUsage>,
    pub structured_metadata: Option<Json>,
    pub named_outputs: Option<Json>,
}

impl View for ToolResult {
    type V = ToolResultView;

    open spec fn view(&self) -> ToolResultView {
        ToolResultView {
            output: self.output@,
            success: self.success,
            file_modified: opt_view(self.file_modified),
            files_to_send: views(self.files_to_send@),
            tokens_used: self.tokens_used,
            structured_metadata: opt_json(self.structured_metadata),
            named_outputs: opt_json(self.named_outputs),
        }
    }
}

/// A result that says in words how the call went, and nothing else.
pub open spec fn in_words(output: Seq<char>, success: bool) -> ToolResultView {
    ToolResultView {
        output,
        success,
        file_modified: None,
        files_to_send: seq![],
        tokens_used: None,
        structured_metadata: None,
        named_outputs: None,
    }
}

fn result_in_words(output: String, success: bool) -> (r: ToolResult)
    ensures
        r@ == in_words(output@, success),
{
    let r = ToolResult {
        output,
        success,
        file_modified: None,
        files_to_send: Vec::new(),
        tokens_used: None,
        structured_metadata: None,
        named_outputs: None,
    };
    assert(views(r.files_to_send@) =~= seq![]);
    r
}

/// The input of the tool.
#[derive(Debug)]
pub struct LaunchInput {
    pub splash_body: String,
    pub app_id: String,
}

/// The identifier of an app that is not given one.
pub fn default_app_id() -> (r: String)
    ensures
        r@ == "splash-app"@,
{
    "splash-app".to_string()
}

/// The input that a JSON value holds: the body, and the identifier or its
/// default. An object has them by name and may have other members; an array has
/// them in this order and nothing else.
pub open spec fn input_of(json: Json) -> Option<(Seq<char>, Seq<char>)> {
    match json {
        Json::Object(entries) => match (entry(entries, "splash_body"@), entry(entries, "app_id"@)) {
            (Some(Json::Str(body)), None) => Some((body, "splash-app"@)),
            (Some(Json::Str(body)), Some(Json::Str(id))) => Some((body, id)),
            _ => None,
        },
        Json::Array(items) => if items.len() == 1 && items[0] is Str {
            Some((items[0]->Str_0, "splash-app"@))
        } else if items.len() == 2 && items[0] is Str && items[1] is Str {
            Some((items[0]->Str_0, items[1]->Str_0))
        } else {
            None
        },
        _ => None,
    }
}

/// Reads the input of the tool.
pub fn parse_input(input: &serde_json::Value) -> (r: Result<LaunchInput, String>)
    ensures
        match input_of(json_of(*input)) {
            Some((body, id)) => r matches Ok(found) && found.splash_body@ == body && found.app_id@
                == id,
            None => r matches Err(reason) && reason@ == "Invalid launch_app input"@,
        },
{
    let refused: Result<LaunchInput, String> = Err("Invalid launch_app input".to_string());
    if let Some(items) = json::as_array(input) {
        assert(json_of(*input) == Json::Array(items_of(items@)));
        if items.len() == 0 || items.len() > 2 {
            return refused;
        }
        assert(items_of(items@)[0] == json_of(items@[0]));
        let body = match json::as_str(&items[0]) {
            Some(body) => body.to_string(),
            None => {
                return refused;
            },
        };
        if items.len() == 1 {
            return Ok(LaunchInput { splash_body: body, app_id: default_app_id() });
        }
        assert(items_of(items@)[1] == json_of(items@[1]));
        return match json::as_str(&items[1]) {
            Some(id) => Ok(LaunchInput { splash_body: body, app_id: id.to_string() }),
            None => refused,
        };
    }
    let body = match json::get_str(input, "splash_body") {
        Some(body) => body.to_string(),
        None => {
            return refused;
        },
    };
    match json::get(input, "app_id") {
        None => Ok(LaunchInput { splash_body: body, app_id: default_app_id() }),
        Some(value) => match json::as_str(value) {
            Some(id) => Ok(LaunchInput { splash_body: body, app_id: id.to_string() }),
            None => refused,
        },
    }
}

/// The message that launches an app.
pub open spec fn launch_wire(body: Seq<char>, id: Seq<char>) -> Json {
    Json::Object(
        tag("launch"@) + seq![("app_id"@, Json::Str(id)), ("splash_body"@, Json::Str(body))],
    )
}

/// Builds the message that launches an app.
pub fn launch_message(body: &str, id: &str) -> (r: String)
    ensures
        r@ == json_text(launch_wire(body@, id@)),
        parsed_json(r@) == Some(launch_wire(body@, id@)),
{
    let members = vec![
        json::with_key("type", json::string("launch")),
        json::with_key("app_id", json::string(id)),
        json::with_key("splash_body", json::string(body)),
    ];
    proof {
        reveal_strlit("type");
        reveal_strlit("app_id");
        reveal_strlit("splash_body");
        assert("type"@.len() == 4 && "app_id"@.len() == 6 && "splash_body"@.len() == 11);
        reveal_with_fuel(exact, 2);
        assert(members_of(members@) =~= tag("launch"@) + seq![
            ("app_id"@, Json::Str(id@)),
            ("splash_body"@, Json::Str(body@)),
        ]);
    }
    let value = json::object(members);
    json::to_text(&value)
}

/// How far a tool call has come.
#[derive(Debug)]
pub enum Phase {
    /// Finding out whether the harness runs.
    Probing,
    /// Starting the harness.
    Launching,
    /// Waiting for the harness, after a number of vain probes.
    Waiting(u32),
    /// Sending the app.
    Sending,
    /// Over, with what there is to say and whether the call went well.
    Done { output: String, success: bool },
}

/// The model of how far a tool call has come.
#[verifier::ext_equal]
pub enum PhaseView {
    Probing,
    Launching,
    Waiting(u32),
    Sending,
    Done(ToolResultView),
}

impl View for Phase {
    type V = PhaseView;

    open spec fn view(&self) -> PhaseView {
        match self {
            Phase::Probing => PhaseView::Probing,
            Phase::Launching => PhaseView::Launching,
            Phase::Waiting(n) => PhaseView::Waiting(*n),
            Phase::Sending => PhaseView::Sending,
            Phase::Done { output, success } => PhaseView::Done(in_words(output@, *success)),
        }
    }
}

/// What happened to a tool call.
#[derive(Debug)]
pub enum ExecuteEvent {
    /// A probe showed whether the harness runs.
    Probed(bool),
    /// The harness was started.
    Launched,
    /// The harness could not be started, with the reason.
    LaunchFailed(String),
    /// The app was sent; these texts came back.
    Sent(Vec<String>),
    /// The app could not be sent, with the reason.
    SendFailed(String),
}

/// What a tool call needs done.
#[derive(Debug)]
pub enum ExecuteAction {
    /// Find out whether the harness runs.
    Probe,
    /// Start the harness.
    LaunchHarness,
    /// Pause, then find out whether the harness runs.
    PauseThenProbe { milliseconds: u64 },
    /// Send this message to this address.
    Send { url: String, message: String },
    /// Give this result back.
    Finish(ToolResult),
}

/// The model of what a tool call needs done.
#[verifier::ext_equal]
pub enum ExecuteActionView {
    Probe,
    LaunchHarness,
    PauseThenProbe { milliseconds: u64 },
    Send { url: Seq<char>, message: Seq<char> },
    Finish(ToolResultView),
}

impl View for ExecuteAction {
    type V = ExecuteActionView;

    open spec fn view(&self) -> ExecuteActionView {
        match self {
            ExecuteAction::Probe => ExecuteActionView::Probe,
            ExecuteAction::LaunchHarness => ExecuteActionView::LaunchHarness,
            ExecuteAction::PauseThenProbe { milliseconds } => ExecuteActionView::PauseThenProbe {
                milliseconds: *milliseconds,
            },
            ExecuteAction::Send { url, message } => ExecuteActionView::Send {
                url: url@,
                message: message@,
            },
            ExecuteAction::Finish(result) => ExecuteActionView::Finish(result@),
        }
    }
}

pub open spec fn failure(output: Seq<char>) -> ToolResultView {
    in_words(output, false)
}

/// The result of a launch that went well, with the texts that came back.
pub open spec fn success(responses: Seq<Seq<char>>) -> ToolResultView {
    in_words(
        if responses.len() == 0 {
            "App launched successfully"@
        } else {
            "App launched. "@ + joined(responses, "; "@)
        },
        true,
    )
}

/// How far the call has come after an event. An event that the phase does not
/// wait for changes nothing.
pub open spec fn next_phase(phase: PhaseView, event: ExecuteEvent) -> PhaseView {
    match (phase, event) {
        (PhaseView::Probing, ExecuteEvent::Probed(running)) => if running {
            PhaseView::Sending
        } else {
            PhaseView::Launching
        },
        (PhaseView::Launching, ExecuteEvent::Launched) => PhaseView::Waiting(0),
        (PhaseView::Launching, ExecuteEvent::LaunchFailed(reason)) => PhaseView::Done(
            failure("Failed to start harness: "@ + reason@),
        ),
        (PhaseView::Waiting(n), ExecuteEvent::Probed(running)) => if running {
            PhaseView::Sending
        } else if n + 1 >= READY_ATTEMPTS {
            PhaseView::Done(failure(NOT_READY_TEXT@))
        } else {
            PhaseView::Waiting((n + 1) as u32)
        },
        (PhaseView::Sending, ExecuteEvent::Sent(responses)) => PhaseView::Done(
            success(views(responses@)),
        ),
        (PhaseView::Sending, ExecuteEvent::SendFailed(reason)) => PhaseView::Done(
            failure("Failed to launch app: "@ + reason@),
        ),
        _ => phase,
    }
}

/// What the call needs done in a phase.
pub open spec fn action_of(phase: PhaseView, body: Seq<char>, id: Seq<char>) -> ExecuteActionView {
    match phase {
        PhaseView::Probing => ExecuteActionView::Probe,
        PhaseView::Launching => ExecuteActionView::LaunchHarness,
        PhaseView::Waiting(_) => ExecuteActionView::PauseThenProbe { milliseconds: READY_PAUSE_MS },
        PhaseView::Sending => ExecuteActionView::Send {
            url: HARNESS_URL@,
            message: json_text(launch_wire(body, id)),
        },
        PhaseView::Done(result) => ExecuteActionView::Finish(result),
    }
}

/// A call of the tool.
#[derive(Debug)]
pub struct LaunchRun {
    splash_body: String,
    app_id: String,
    phase: Phase,
}

/// What there is to say of a launch that went well.
fn launch_words(responses: &Vec<String>) -> (r: String)
    ensures
        r@ == success(views(responses@)).output,
{
    if responses.len() == 0 {
        "App launched successfully".to_string()
    } else {
        text::concat("App launched. ", text::join(responses, "; ").as_str())
    }
}

/// The result of a launch that went well, with the texts that came back.
pub fn launch_summary(responses: &Vec<String>) -> (r: ToolResult)
    ensures
        r@ == success(views(responses@)),
{
    result_in_words(launch_words(responses), true)
}

impl LaunchRun {
    pub closed spec fn body(self) -> Seq<char> {
        self.splash_body@
    }

    pub closed spec fn id(self) -> Seq<char> {
        self.app_id@
    }

    pub closed spec fn phase(self) -> PhaseView {
        self.phase@
    }

    /// Takes in an event.
    pub fn step(&mut self, event: ExecuteEvent)
        ensures
            final(self).phase() == next_phase(old(self).phase(), event),
            final(self).body() == old(self).body(),
            final(self).id() == old(self).id(),
    {
        match (&self.phase, event) {
            (Phase::Probing, ExecuteEvent::Probed(running)) => {
                self.phase =
                if running {
                    Phase::Sending
                } else {
                    Phase::Launching
                };
            },
            (Phase::Launching, ExecuteEvent::Launched) => {
                self.phase = Phase::Waiting(0);
            },
            (Phase::Launching, ExecuteEvent::LaunchFailed(reason)) => {
                self.phase = Phase::Done {
                    output: text::concat("Failed to start harness: ", reason.as_str()),
                    success: false,
                };
            },
            (Phase::Waiting(n), ExecuteEvent::Probed(running)) => {
                let n: u32 = *n;
                self.phase =
                if running {
                    Phase::Sending
                } else if n >= READY_ATTEMPTS - 1 {
                    Phase::Done { output: NOT_READY_TEXT.to_string(), success: false }
                } else {
                    Phase::Waiting(n + 1)
                };
            },
            (Phase::Sending, ExecuteEvent::Sent(responses)) => {
                self.phase = Phase::Done { output: launch_words(&responses), success: true };
            },
            (Phase::Sending, ExecuteEvent::SendFailed(reason)) => {
                self.phase = Phase::Done {
                    output: text::concat("Failed to launch app: ", reason.as_str()),
                    success: false,
                };
            },
            _ => {},
        }
    }

    /// What the call needs done now.
    pub fn action(&self) -> (r: ExecuteAction)
        ensures
            r@ == action_of(self.phase(), self.body(), self.id()),
            r matches ExecuteAction::Send { url: _, message } ==> parsed_json(message@) == Some(
                launch_wire(self.body(), self.id()),
            ),
    {
        match &self.phase {
            Phase::Probing => ExecuteAction::Probe,
            Phase::Launching => ExecuteAction::LaunchHarness,
            Phase::Waiting(_) => ExecuteAction::PauseThenProbe { milliseconds: READY_PAUSE_MS },
            Phase::Sending => ExecuteAction::Send {
                url: HARNESS_URL.to_string(),
                message: launch_message(self.splash_body.as_str(), self.app_id.as_str()),
            },
            Phase::Done { output, success } => ExecuteAction::Finish(
                result_in_words(output.clone(), *success),
            ),
        }
    }
}

/// What is to be done to the processes of the harness.
#[derive(Debug)]
pub enum ProcessAction {
    /// Kill the harness that the tool has started, and wait for its end.
    KillOwn,
    /// Kill every process whose command line matches.
    KillMatching(&'static str),
    /// Pause.
    Pause { milliseconds: u64 },
    /// Start the harness at this path.
    Spawn(String),
}

/// The model of what is to be done to the processes.
#[verifier::ext_equal]
pub enum ProcessActionView {
    KillOwn,
    KillMatching(Seq<char>),
    Pause { milliseconds: u64 },
    Spawn(Seq<char>),
}

impl View for ProcessAction {
    type V = ProcessActionView;

    open spec fn view(&self) -> ProcessActionView {
        match self {
            ProcessAction::KillOwn => ProcessActionView::KillOwn,
            ProcessAction::KillMatching(pattern) => ProcessActionView::KillMatching(pattern@),
            ProcessAction::Pause { milliseconds } => ProcessActionView::Pause {
                milliseconds: *milliseconds,
            },
            ProcessAction::Spawn(path) => ProcessActionView::Spawn(path@),
        }
    }
}

/// The models of a list of actions.
pub open spec fn process_view(actions: Seq<ProcessAction>) -> Seq<ProcessActionView> {
    actions.map_values(|a: ProcessAction| a@)
}

/// The processes left over from an earlier run are killed.
pub open spec fn sweep() -> Seq<ProcessActionView> {
    seq![
        ProcessActionView::KillMatching("harness"@),
        ProcessActionView::KillMatching("makepad-host"@),
    ]
}

/// Path of the harness: as configured, or the default.
pub open spec fn harness_path(configured: Option<String>) -> Seq<char> {
    match configured {
        Some(path) => path@,
        None => DEFAULT_HARNESS_BIN@,
    }
}

/// How a fresh harness is started: what is left over is killed first.
pub fn launch_harness(configured: Option<String>) -> (r: Vec<ProcessAction>)
    ensures
        process_view(r@) == sweep() + seq![
            ProcessActionView::Pause { milliseconds: 500 },
            ProcessActionView::Spawn(harness_path(configured)),
        ],
{
    let path = match configured {
        Some(path) => path,
        None => DEFAULT_HARNESS_BIN.to_string(),
    };
    let r = vec![
        ProcessAction::KillMatching("harness"),
        ProcessAction::KillMatching("makepad-host"),
        ProcessAction::Pause { milliseconds: 500 },
        ProcessAction::Spawn(path),
    ];
    assert(process_view(r@) =~= sweep() + seq![
        ProcessActionView::Pause { milliseconds: 500 },
        ProcessActionView::Spawn(harness_path(configured)),
    ]);
    r
}

/// Why a harness could not be started.
pub fn launch_failure(path: &str) -> (r: String)
    ensures
        r@ == "Failed to launch harness at "@ + path@,
{
    text::concat("Failed to launch harness at ", path)
}

pub open spec fn described(kind: Seq<char>, about: Seq<char>) -> Json {
    Json::Object(seq![("type"@, Json::Str(kind)), ("description"@, Json::Str(about))])
}

/// The shape of the input: an object with a body and, if wanted, an identifier.
pub open spec fn input_shape() -> Json {
    Json::Object(
        seq![
            ("type"@, Json::Str("object"@)),
            (
                "properties"@,
                Json::Object(
                    seq![
                        (
                            "splash_body"@,
                            described("string"@, "The Splash DSL body (Makepad widget syntax)."@),
                        ),
                        (
                            "app_id"@,
                            described("string"@, "Optional app identifier (default: splash-app)"@),
                        ),
                    ],
                ),
            ),
            ("required"@, Json::Array(seq![Json::Str("splash_body"@)])),
        ],
    )
}

fn described_property(kind: &str, about: &str) -> (r: serde_json::Value)
    ensures
        json_of(r) == described(kind@, about@),
{
    let members = vec![
        json::with_key("type", json::string(kind)),
        json::with_key("description", json::string(about)),
    ];
    proof {
        reveal_strlit("type");
        reveal_strlit("description");
        assert("type"@.len() != "description"@.len());
        assert(members_of(members@) =~= seq![
            ("type"@, Json::Str(kind@)),
            ("description"@, Json::Str(about@)),
        ]);
    }
    json::object(members)
}

impl LaunchAppTool {
    /// Whether the tool has started a harness that it has to end.
    pub closed spec fn owns(self) -> bool {
        self.owns_harness
    }

    pub fn new() -> (r: Self)
        ensures
            !r.owns(),
    {
        LaunchAppTool { owns_harness: false }
    }

    pub fn name(&self) -> (r: &'static str)
        ensures
            r@ == "launch_app"@,
    {
        "launch_app"
    }

    pub fn description(&self) -> (r: &'static str)
        ensures
            r@ == "Launch a Splash DSL mini-app on the Makepad native UI host."@,
    {
        "Launch a Splash DSL mini-app on the Makepad native UI host."
    }

    pub fn tags(&self) -> (r: Vec<&'static str>)
        ensures
            r@.map_values(|s: &'static str| s@) == seq!["gateway"@, "makepad"@],
    {
        let r = vec!["gateway", "makepad"];
        assert(r@.map_values(|s: &'static str| s@) =~= seq!["gateway"@, "makepad"@]);
        r
    }

    /// The shape of the input.
    pub fn input_schema(&self) -> (r: serde_json::Value)
        ensures
            json_of(r) == input_shape(),
    {
        let properties = vec![
            json::with_key(
                "splash_body",
                described_property("string", "The Splash DSL body (Makepad widget syntax)."),
            ),
            json::with_key(
                "app_id",
                described_property("string", "Optional app identifier (default: splash-app)"),
            ),
        ];
        let required = vec![json::string("splash_body")];
        proof {
            reveal_strlit("splash_body");
            reveal_strlit("app_id");
            reveal_strlit("type");
            reveal_strlit("properties");
            reveal_strlit("required");
            assert("splash_body"@.len() != "app_id"@.len());
            assert("type"@.len() == 4 && "properties"@.len() == 10 && "required"@.len() == 8);
            assert(members_of(properties@) =~= seq![
                (
                    "splash_body"@,
                    described("string"@, "The Splash DSL body (Makepad widget syntax)."@),
                ),
                (
                    "app_id"@,
                    described("string"@, "Optional app identifier (default: splash-app)"@),
                ),
            ]);
            assert(items_of(required@) =~= seq![Json::Str("splash_body"@)]);
        }
        let members = vec![
            json::with_key("type", json::string("object")),
            json::with_key("properties", json::object(properties)),
            json::with_key("required", json::array(required)),
        ];
        assert(members_of(members@)[0] == ("type"@, Json::Str("object"@)));
        assert(members_of(members@) =~= input_shape()->Object_0);
        json::object(members)
    }

    /// Begins a call of the tool.
    pub fn execute(&self, input: &serde_json::Value) -> (r: Result<LaunchRun, String>)
        ensures
            match input_of(json_of(*input)) {
                Some((body, id)) => r matches Ok(run) && run.phase() == PhaseView::Probing
                    && run.body() == body && run.id() == id,
                None => r matches Err(reason) && reason@ == "Invalid launch_app input"@,
            },
    {
        match parse_input(input) {
            Ok(found) => Ok(
                LaunchRun {
                    splash_body: found.splash_body,
                    app_id: found.app_id,
                    phase: Phase::Probing,
                },
            ),
            Err(reason) => Err(reason),
        }
    }

    /// Takes in an event of a call. A harness that was started is the tool's own
    /// from then on: the tool has to end it.
    pub fn advance(&mut self, run: &mut LaunchRun, event: ExecuteEvent)
        ensures
            final(self).owns() == (old(self).owns() || event is Launched),
            final(run).phase() == next_phase(old(run).phase(), event),
            final(run).body() == old(run).body(),
            final(run).id() == old(run).id(),
    {
        if let ExecuteEvent::Launched = &event {
            self.owns_harness = true;
        }
        run.step(event);
    }

    /// How the tool ends: it kills its own harness, if any, and what is left over.
    pub fn shut_down(&mut self) -> (r: Vec<ProcessAction>)
        ensures
            process_view(r@) == if old(self).owns() {
                seq![ProcessActionView::KillOwn] + sweep()
            } else {
                sweep()
            },
            !final(self).owns(),
    {
        let mut r: Vec<ProcessAction> = Vec::new();
        if self.owns_harness {
            r.push(ProcessAction::KillOwn);
        }
        self.owns_harness = false;
        r.push(ProcessAction::KillMatching("harness"));
        r.push(ProcessAction::KillMatching("makepad-host"));
        assert(old(self).owns() ==> process_view(r@) =~= seq![ProcessActionView::KillOwn]
            + sweep());
        assert(!old(self).owns() ==> process_view(r@) =~= sweep());
        r
    }
}

/// How far the conversation with the harness has come.
#[derive(Clone, Copy, Debug, PartialEq, Eq, Structural)]
pub enum ExchangePhase {
    /// The connection is there.
    Connected,
    /// The harness greets.
    Greeting,
    /// The app is to be sent.
    Sending,
    /// The app has been sent.
    Sent,
    /// The harness answers.
    Answering,
    /// Over.
    Over,
}

/// What the conversation needs done.
#[derive(Clone, Copy, Debug, PartialEq, Eq, Structural)]
pub enum ExchangeAction {
    /// Pause.
    Pause { milliseconds: u64 },
    /// Listen for a text, for so long.
    Listen { milliseconds: u64 },
    /// Send the app.
    Send,
    /// Nothing more.
    Finish,
}

/// What happened in the conversation.
#[derive(Debug)]
pub enum ExchangeEvent {
    /// The pause is over.
    Paused,
    /// The harness sent a text.
    Text(String),
    /// It sent something else, or closed the connection.
    Other,
    /// It said nothing in the time that was given.
    Silence,
    /// The app has been handed to the connection.
    Delivered,
}

/// A conversation with the harness: the app is sent after the greeting, and
/// every text that comes is kept.
#[derive(Debug)]
pub struct Exchange {
    responses: Vec<String>,
    phase: ExchangePhase,
}

/// A text that completes the answer: it speaks of a status or of a response of
/// the user.
pub open spec fn is_final(text: Seq<char>) -> bool {
    contains(text, "\"status\""@) || contains(text, "\"user_response\""@)
}

/// What the conversation needs done in a phase.
pub open spec fn exchange_action(phase: ExchangePhase) -> ExchangeAction {
    match phase {
        ExchangePhase::Connected => ExchangeAction::Pause { milliseconds: 200 },
        ExchangePhase::Greeting => ExchangeAction::Listen { milliseconds: 200 },
        ExchangePhase::Sending => ExchangeAction::Send,
        ExchangePhase::Sent => ExchangeAction::Pause { milliseconds: 500 },
        ExchangePhase::Answering => ExchangeAction::Listen { milliseconds: 1000 },
        ExchangePhase::Over => ExchangeAction::Finish,
    }
}

/// How far the conversation has come after an event. An event that the phase
/// does not wait for changes nothing.
pub open spec fn next_exchange_phase(phase: ExchangePhase, event: ExchangeEvent) -> ExchangePhase {
    match phase {
        ExchangePhase::Connected => if event is Paused {
            ExchangePhase::Greeting
        } else {
            phase
        },
        ExchangePhase::Greeting => if event is Other || event is Silence {
            ExchangePhase::Sending
        } else {
            phase
        },
        ExchangePhase::Sending => if event is Delivered {
            ExchangePhase::Sent
        } else {
            phase
        },
        ExchangePhase::Sent => if event is Paused {
            ExchangePhase::Answering
        } else {
            phase
        },
        ExchangePhase::Answering => match event {
            ExchangeEvent::Text(text) => if is_final(text@) {
                ExchangePhase::Over
            } else {
                phase
            },
            ExchangeEvent::Other => ExchangePhase::Over,
            ExchangeEvent::Silence => ExchangePhase::Over,
            _ => phase,
        },
        ExchangePhase::Over => phase,
    }
}

/// The conversation listens in a phase.
pub open spec fn listens(phase: ExchangePhase) -> bool {
    phase == ExchangePhase::Greeting || phase == ExchangePhase::Answering
}

/// The texts after an event: one that comes while the conversation listens is
/// kept behind the others.
pub open spec fn next_responses(
    responses: Seq<Seq<char>>,
    phase: ExchangePhase,
    event: ExchangeEvent,
) -> Seq<Seq<char>> {
    match event {
        ExchangeEvent::Text(text) => if listens(phase) {
            responses.push(text@)
        } else {
            responses
        },
        _ => responses,
    }
}

impl Exchange {
    pub closed spec fn texts(self) -> Seq<Seq<char>> {
        views(self.responses@)
    }

    pub closed spec fn at(self) -> ExchangePhase {
        self.phase
    }

    pub fn new() -> (r: Self)
        ensures
            r.texts() == Seq::<Seq<char>>::empty(),
            r.at() == ExchangePhase::Connected,
    {
        let r = Exchange { responses: Vec::new(), phase: ExchangePhase::Connected };
        assert(r.texts() =~= Seq::<Seq<char>>::empty());
        r
    }

    pub fn phase(&self) -> (r: ExchangePhase)
        ensures
            r == self.at(),
    {
        self.phase
    }

    /// What the conversation needs done now.
    pub fn action(&self) -> (r: ExchangeAction)
        ensures
            r == exchange_action(self.at()),
    {
        match self.phase {
            ExchangePhase::Connected => ExchangeAction::Pause { milliseconds: 200 },
            ExchangePhase::Greeting => ExchangeAction::Listen { milliseconds: 200 },
            ExchangePhase::Sending => ExchangeAction::Send,
            ExchangePhase::Sent => ExchangeAction::Pause { milliseconds: 500 },
            ExchangePhase::Answering => ExchangeAction::Listen { milliseconds: 1000 },
            ExchangePhase::Over => ExchangeAction::Finish,
        }
    }

    /// Takes in what happened.
    pub fn step(&mut self, event: ExchangeEvent)
        ensures
            final(self).at() == next_exchange_phase(old(self).at(), event),
            final(self).texts() == next_responses(old(self).texts(), old(self).at(), event),
    {
        let ghost before = self.texts();
        match (self.phase, event) {
            (ExchangePhase::Connected, ExchangeEvent::Paused) => {
                self.phase = ExchangePhase::Greeting;
            },
            (ExchangePhase::Greeting, ExchangeEvent::Text(text)) => {
                self.responses.push(text);
                assert(self.texts() =~= before.push(text@));
            },
            (ExchangePhase::Greeting, ExchangeEvent::Other)
            | (ExchangePhase::Greeting, ExchangeEvent::Silence) => {
                self.phase = ExchangePhase::Sending;
            },
            (ExchangePhase::Sending, ExchangeEvent::Delivered) => {
                self.phase = ExchangePhase::Sent;
            },
            (ExchangePhase::Sent, ExchangeEvent::Paused) => {
                self.phase = ExchangePhase::Answering;
            },
            (ExchangePhase::Answering, ExchangeEvent::Text(text)) => {
                let last = text::has(text.as_str(), "\"status\"") || text::has(
                    text.as_str(),
                    "\"user_response\"",
                );
                self.responses.push(text);
                assert(self.texts() =~= before.push(text@));
                if last {
                    self.phase = ExchangePhase::Over;
                }
            },
            (ExchangePhase::Answering, ExchangeEvent::Other)
            | (ExchangePhase::Answering, ExchangeEvent::Silence) => {
                self.phase = ExchangePhase::Over;
            },
            _ => {},
        }
    }

    /// The texts that came, in their order.
    pub fn into_responses(self) -> (r: Vec<String>)
        ensures
            views(r@) == self.texts(),
    {
        self.responses
    }
}

/// How far a conversation has come after events.
pub open spec fn exchange_after(events: Seq<ExchangeEvent>) -> ExchangePhase
    decreases events.len(),
{
    if events.len() == 0 {
        ExchangePhase::Connected
    } else {
        next_exchange_phase(exchange_after(events.drop_last()), events.last())
    }
}

/// How often the app was sent over events: each time that was due and done.
pub open spec fn times_sent(events: Seq<ExchangeEvent>) -> nat
    decreases events.len(),
{
    if events.len() == 0 {
        0
    } else {
        let earlier = times_sent(events.drop_last());
        if exchange_action(exchange_after(events.drop_last())) == ExchangeAction::Send
            && events.last() is Delivered {
            earlier + 1
        } else {
            earlier
        }
    }
}

/// The app is sent once: not while the harness greets, and once and for all when
/// the greeting is over. A conversation that is over has sent it.
pub proof fn the_app_is_sent_once(events: Seq<ExchangeEvent>)
    ensures
        times_sent(events) == match exchange_after(events) {
            ExchangePhase::Connected => 0nat,
            ExchangePhase::Greeting => 0,
            ExchangePhase::Sending => 0,
            ExchangePhase::Sent => 1,
            ExchangePhase::Answering => 1,
            ExchangePhase::Over => 1,
        },
    decreases events.len(),
{
    if events.len() > 0 {
        the_app_is_sent_once(events.drop_last());
    }
}

/// How far a call that waits has come after a number of vain probes.
pub open spec fn after_vain_probes(n: nat) -> PhaseView
    decreases n,
{
    if n == 0 {
        PhaseView::Waiting(0)
    } else {
        next_phase(after_vain_probes((n - 1) as nat), ExecuteEvent::Probed(false))
    }
}

/// A call waits for the harness through thirty probes, that is for fifteen
/// seconds, and then gives up; it does not give up before.
pub proof fn waiting_ends_after_fifteen_seconds(n: nat)
    ensures
        n < READY_ATTEMPTS ==> after_vain_probes(n) == PhaseView::Waiting(n as u32),
        n >= READY_ATTEMPTS ==> after_vain_probes(n) == PhaseView::Done(failure(NOT_READY_TEXT@)),
        READY_ATTEMPTS * READY_PAUSE_MS == 15_000,
    decreases n,
{
    if n > 0 {
        waiting_ends_after_fifteen_seconds((n - 1) as nat);
    }
}

/// Once a call is over, its result stays.
pub proof fn results_are_kept(result: ToolResultView, event: ExecuteEvent)
    ensures
        next_phase(PhaseView::Done(result), event) == PhaseView::Done(result),
{
}

/// A call succeeds only by sending the app.
pub proof fn success_comes_from_sending(phase: PhaseView, event: ExecuteEvent)
    requires
        !(phase is Done),
        next_phase(phase, event) matches PhaseView::Done(result) && result.success,
    ensures
        phase == PhaseView::Sending,
        event is Sent,
{
}

/// A harness that answers the first probe is not started anew: the app is sent
/// to it at once.
pub proof fn running_harness_is_used()
    ensures
        next_phase(PhaseView::Probing, ExecuteEvent::Probed(true)) == PhaseView::Sending,
{
}

/// No text of the harness is lost or moved: those that came stay as they are,
/// and a text that comes while the conversation listens is kept behind them.
pub proof fn texts_are_kept(
    responses: Seq<Seq<char>>,
    phase: ExchangePhase,
    event: ExchangeEvent,
)
    ensures
        responses.is_prefix_of(next_responses(responses, phase, event)),
        listens(phase) && event is Text ==> next_responses(responses, phase, event).last()
            == event->Text_0@,
{
}

} // verus!
