//! The Chrome DevTools Protocol as this client speaks it: the command text it
//! writes, and what it makes of each message the browser sends back.
use vstd::prelude::*;
use crate::json::{json_quoted, json_str_at, json_text_at, json_u64_at, opt_view, quote, str_at, text_at, u64_at};
use crate::text::{decimal, decimal_of};

verus! {

/// Why talking to a CDP endpoint failed.
#[derive(Debug, PartialEq, Eq)]
pub enum CdpError {
    /// The `/json/version` answer was not JSON.
    VersionUnreadable,
    /// The `/json/version` answer has no `webSocketDebuggerUrl` string.
    MissingDebuggerUrl,
    /// Writing the command for `method` to the socket failed.
    SendFailed { method: String },
    /// The socket reported an error (its description).
    Socket(String),
    /// The browser closed the socket.
    Closed,
    /// The socket's message stream ended while a reply was awaited.
    StreamEnded,
    /// The browser answered the command for `method` with an error object (its JSON).
    Command { method: String, error: String },
    /// The reply to `Target.createTarget` has no `targetId`.
    MissingTargetId,
    /// The reply to `Target.attachToTarget` has no `sessionId`.
    MissingSessionId,
    /// The page did not report that it loaded within the navigation timeout.
    LoadTimeout,
}

/// A command as plain values: its id, method, parameters (JSON text) and session.
pub struct CommandView {
    pub id: nat,
    pub method: Seq<char>,
    pub params: Seq<char>,
    pub session_id: Option<Seq<char>>,
}

/// One CDP command.
pub struct CdpCommand {
    /// The id that the reply will carry.
    pub id: u32,
    /// The session the command is sent to, if it is for a page.
    pub session_id: Option<String>,
    /// The method name, such as `Page.navigate`.
    pub method: String,
    /// The parameters, as JSON object text.
    pub params: String,
}

impl View for CdpCommand {
    type V = CommandView;

    open spec fn view(&self) -> CommandView {
        CommandView {
            id: self.id as nat,
            method: self.method@,
            params: self.params@,
            session_id: opt_view(self.session_id),
        }
    }
}

/// The JSON text sent for a command: keys in the order `id`, `method`, `params`,
/// `sessionId`, compact, the last only when the command has a session.
pub open spec fn command_json(c: CommandView) -> Seq<char> {
    "{\"id\":"@ + decimal_of(c.id) + ",\"method\":"@ + json_quoted(c.method) + ",\"params\":"@
        + c.params + match c.session_id {
        Some(s) => ",\"sessionId\":"@ + json_quoted(s),
        None => Seq::<char>::empty(),
    } + "}"@
}

/// Parameters `{"url": url}`.
pub open spec fn url_params(url: Seq<char>) -> Seq<char> {
    "{\"url\":"@ + json_quoted(url) + "}"@
}

/// Parameters `{"flatten": true, "targetId": target_id}`.
pub open spec fn attach_params(target_id: Seq<char>) -> Seq<char> {
    "{\"flatten\":true,\"targetId\":"@ + json_quoted(target_id) + "}"@
}

/// Parameters `{"expression": expression, "returnByValue": true}`.
pub open spec fn evaluate_params(expression: Seq<char>) -> Seq<char> {
    "{\"expression\":"@ + json_quoted(expression) + ",\"returnByValue\":true}"@
}

impl CdpCommand {
    /// The command's text on the wire.
    pub fn to_json(&self) -> (r: String)
        ensures
            r@ == command_json(self@),
    {
        let mut out = String::from_str("{\"id\":");
        let digits = decimal(self.id);
        out.append(digits.as_str());
        out.append(",\"method\":");
        let m = quote(self.method.as_str());
        out.append(m.as_str());
        out.append(",\"params\":");
        out.append(self.params.as_str());
        match &self.session_id {
            Some(s) => {
                out.append(",\"sessionId\":");
                let q = quote(s.as_str());
                out.append(q.as_str());
            },
            None => {},
        }
        out.append("}");
        out
    }
}

/// `{"url": url}` as text.
pub fn url_params_text(url: &str) -> (r: String)
    ensures
        r@ == url_params(url@),
{
    let q = quote(url);
    String::from_str("{\"url\":").concat(q.as_str()).concat("}")
}

/// `{"flatten": true, "targetId": target_id}` as text.
pub fn attach_params_text(target_id: &str) -> (r: String)
    ensures
        r@ == attach_params(target_id@),
{
    let q = quote(target_id);
    String::from_str("{\"flatten\":true,\"targetId\":").concat(q.as_str()).concat("}")
}

/// `{"expression": expression, "returnByValue": true}` as text.
pub fn evaluate_params_text(expression: &str) -> (r: String)
    ensures
        r@ == evaluate_params(expression@),
{
    let q = quote(expression);
    String::from_str("{\"expression\":").concat(q.as_str()).concat(",\"returnByValue\":true}")
}

/// `Target.createTarget` on `about:blank`, without a session: the command that
/// opens a fresh page, and the one that checks an endpoint when a client is built.
pub fn create_target_command(id: u32) -> (r: CdpCommand)
    ensures
        r@ == (CommandView {
            id: id as nat,
            method: "Target.createTarget"@,
            params: url_params("about:blank"@),
            session_id: None,
        }),
{
    CdpCommand {
        id,
        session_id: None,
        method: String::from_str("Target.createTarget"),
        params: url_params_text("about:blank"),
    }
}

/// What the socket delivered while a reply or an event was awaited.
pub enum WsEvent {
    /// A text frame.
    Text(String),
    /// A ping, pong, binary or raw frame, which carries nothing for us.
    Other,
    /// A close frame.
    Close,
    /// The end of the stream.
    End,
    /// A socket error (its description).
    Failure(String),
}

/// Where awaiting the reply to one command stands after an event.
pub enum CallProgress {
    /// The event was not the reply: keep reading.
    Waiting,
    /// The reply arrived; the text of the whole message.
    Reply(String),
    /// The command failed.
    Failed(CdpError),
}

/// Whether `text` is the reply to the command with `id`: a JSON object whose
/// `id` is that number.
pub open spec fn is_reply_to(text: Seq<char>, id: nat) -> bool {
    json_u64_at(text, "/id"@) == Some(id as u64)
}

/// What one socket event means while awaiting the reply to the command with
/// `id` and `method`: a reply with an `error` member fails the command, a reply
/// without one completes it, other text is skipped, and a closed or broken socket
/// fails the command.
pub fn on_call_event(id: u32, method: &str, event: WsEvent) -> (r: CallProgress)
    ensures
        match event {
            WsEvent::Text(t) => if is_reply_to(t@, id as nat) {
                match json_text_at(t@, "/error"@) {
                    Some(e) => r matches CallProgress::Failed(CdpError::Command { method: m, error: x })
                        && m@ == method@ && x@ == e,
                    None => r matches CallProgress::Reply(x) && x@ == t@,
                }
            } else {
                r is Waiting
            },
            WsEvent::Other => r is Waiting,
            WsEvent::Close => r == CallProgress::Failed(CdpError::Closed),
            WsEvent::End => r == CallProgress::Failed(CdpError::StreamEnded),
            WsEvent::Failure(e) => r == CallProgress::Failed(CdpError::Socket(e)),
        },
        (event matches WsEvent::Text(t) && (json_u64_at(t@, "/id"@) == Some(id as u64) && json_text_at(
            t@,
            "/error"@,
        ) is None)) ==> (r matches CallProgress::Reply(x) && x@ == event->Text_0@),
        (event matches WsEvent::Text(t) && json_u64_at(t@, "/id"@) != Some(id as u64)) ==> r is Waiting,
        r is Reply ==> (event matches WsEvent::Text(t) && json_u64_at(t@, "/id"@) == Some(id as u64)),
{
    match event {
        WsEvent::Text(t) => {
            let got = u64_at(t.as_str(), "/id");
            match got {
                Some(n) => {
                    if n == id as u64 {
                        match text_at(t.as_str(), "/error") {
                            Some(e) => CallProgress::Failed(
                                CdpError::Command { method: String::from_str(method), error: e },
                            ),
                            None => CallProgress::Reply(t),
                        }
                    } else {
                        CallProgress::Waiting
                    }
                },
                None => CallProgress::Waiting,
            }
        },
        WsEvent::Other => CallProgress::Waiting,
        WsEvent::Close => CallProgress::Failed(CdpError::Closed),
        WsEvent::End => CallProgress::Failed(CdpError::StreamEnded),
        WsEvent::Failure(e) => CallProgress::Failed(CdpError::Socket(e)),
    }
}

/// What happened while waiting for a page to load.
pub enum LoadEvent {
    /// The socket delivered something.
    Message(WsEvent),
    /// The navigation timeout ran out.
    TimedOut,
}

/// Where waiting for a page load stands after an event.
pub enum LoadProgress {
    /// Not loaded yet: keep reading.
    Waiting,
    /// The page reported that it loaded.
    Loaded,
    /// Waiting failed.
    Failed(CdpError),
}

/// Whether the event message `text` reports that the page loaded, for the
/// session `session_id` when one is given: a `Page.frameStoppedLoading` event, or
/// a `Page.lifecycleEvent` whose `params.name` is `load`.
pub open spec fn reports_load(text: Seq<char>, session_id: Option<Seq<char>>) -> bool {
    &&& (session_id matches Some(s) ==> json_str_at(text, "/sessionId"@) == Some(s))
    &&& {
        ||| json_str_at(text, "/method"@) == Some("Page.frameStoppedLoading"@)
        ||| (json_str_at(text, "/method"@) == Some("Page.lifecycleEvent"@)
            && json_str_at(text, "/params/name"@) == Some("load"@))
    }
}

fn same_text(a: &str, b: &str) -> (r: bool)
    ensures
        r == (a@ == b@),
{
    String::from_str(a) == String::from_str(b)
}

fn text_is(o: &Option<String>, s: &str) -> (r: bool)
    ensures
        r == (opt_view(*o) == Some(s@)),
{
    match o {
        Some(x) => same_text(x.as_str(), s),
        None => false,
    }
}

/// What one event means while waiting for the page of `session_id` to load:
/// a load report completes the wait, a closed or ended socket, a socket error or
/// the timeout fails it, anything else is skipped.
pub fn on_load_event(session_id: Option<&str>, event: LoadEvent) -> (r: LoadProgress)
    ensures
        match event {
            LoadEvent::Message(WsEvent::Text(t)) => if reports_load(
                t@,
                match session_id {
                    Some(s) => Some(s@),
                    None => None,
                },
            ) {
                r is Loaded
            } else {
                r is Waiting
            },
            LoadEvent::Message(WsEvent::Other) => r is Waiting,
            LoadEvent::Message(WsEvent::Close) => r == LoadProgress::Failed(CdpError::Closed),
            LoadEvent::Message(WsEvent::End) => r == LoadProgress::Failed(CdpError::Closed),
            LoadEvent::Message(WsEvent::Failure(e)) => r == LoadProgress::Failed(CdpError::Socket(e)),
            LoadEvent::TimedOut => r == LoadProgress::Failed(CdpError::LoadTimeout),
        },
        r is Loaded ==> (event matches LoadEvent::Message(WsEvent::Text(t)) && ({
            ||| json_str_at(t@, "/method"@) == Some("Page.frameStoppedLoading"@)
            ||| (json_str_at(t@, "/method"@) == Some("Page.lifecycleEvent"@) && json_str_at(t@, "/params/name"@)
                == Some("load"@))
        })),
        r is Loaded ==> (session_id matches Some(s) ==> (event matches LoadEvent::Message(WsEvent::Text(t))
            && json_str_at(t@, "/sessionId"@) == Some(s@))),
{
    match event {
        LoadEvent::Message(WsEvent::Text(t)) => {
            match session_id {
                Some(s) => {
                    let sid = str_at(t.as_str(), "/sessionId");
                    if !text_is(&sid, s) {
                        return LoadProgress::Waiting;
                    }
                },
                None => {},
            }
            let method = str_at(t.as_str(), "/method");
            if text_is(&method, "Page.frameStoppedLoading") {
                LoadProgress::Loaded
            } else if text_is(&method, "Page.lifecycleEvent") {
                let name = str_at(t.as_str(), "/params/name");
                if text_is(&name, "load") {
                    LoadProgress::Loaded
                } else {
                    LoadProgress::Waiting
                }
            } else {
                LoadProgress::Waiting
            }
        },
        LoadEvent::Message(WsEvent::Other) => LoadProgress::Waiting,
        LoadEvent::Message(WsEvent::Close) => LoadProgress::Failed(CdpError::Closed),
        LoadEvent::Message(WsEvent::End) => LoadProgress::Failed(CdpError::Closed),
        LoadEvent::Message(WsEvent::Failure(e)) => LoadProgress::Failed(CdpError::Socket(e)),
        LoadEvent::TimedOut => LoadProgress::Failed(CdpError::LoadTimeout),
    }
}

/// A message is the reply to the command with `id` exactly when its `id` member
/// is that number, whatever other members (such as `sessionId`) it carries.
pub proof fn lemma_reply_is_matched_by_id(text: Seq<char>, id: nat)
    ensures
        is_reply_to(text, id) <==> json_u64_at(text, "/id"@) == Some(id as u64),
{
}

/// Only the two load events end the wait for a page: `Page.frameStoppedLoading`,
/// or `Page.lifecycleEvent` named `load`, of the page's own session; every other
/// event (such as `Page.frameStartedLoading`) leaves it waiting.
pub proof fn lemma_only_load_events_end_the_wait(text: Seq<char>, session_id: Option<Seq<char>>)
    ensures
        reports_load(text, session_id) ==> {
            ||| json_str_at(text, "/method"@) == Some("Page.frameStoppedLoading"@)
            ||| (json_str_at(text, "/method"@) == Some("Page.lifecycleEvent"@) && json_str_at(text, "/params/name"@)
                == Some("load"@))
        },
        reports_load(text, session_id) && session_id is Some ==> json_str_at(text, "/sessionId"@) == session_id,
        (session_id is None || json_str_at(text, "/sessionId"@) == session_id) && json_str_at(text, "/method"@)
            == Some("Page.frameStoppedLoading"@) ==> reports_load(text, session_id),
        (session_id is None || json_str_at(text, "/sessionId"@) == session_id) && json_str_at(text, "/method"@)
            == Some("Page.lifecycleEvent"@) && json_str_at(text, "/params/name"@) == Some("load"@)
            ==> reports_load(text, session_id),
        forall|m: Seq<char>|
            json_str_at(text, "/method"@) == Some(m) && m != "Page.frameStoppedLoading"@ && m
                != "Page.lifecycleEvent"@ ==> !reports_load(text, session_id),
{
}

} // verus!
