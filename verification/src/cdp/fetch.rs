//! Fetching one page over CDP: open a target, attach to it, prepare the runtime,
//! navigate, wait for the load, then read the document's HTML and final URL.
//! The socket is driven from outside; this module decides each next step.
use vstd::prelude::*;
use crate::cdp::protocol::{
    attach_params, attach_params_text, create_target_command, evaluate_params, evaluate_params_text,
    url_params, url_params_text, CdpCommand, CdpError, CommandView,
};
use crate::json::{json_str_at, str_at};

verus! {

/// How far a page fetch has come.
pub enum FetchStage {
    /// The target (a blank page) is to be created.
    CreateTarget,
    /// The target with this id is to be attached to.
    AttachToTarget { target_id: String },
    /// `Runtime.enable` is to be sent to the session.
    EnableRuntime { session_id: String },
    /// `Runtime.runIfWaitingForDebugger` is to be sent to the session.
    ResumeRuntime { session_id: String },
    /// `Page.enable` is to be sent to the session.
    EnablePage { session_id: String },
    /// `Page.navigate` is to be sent to the session.
    Navigate { session_id: String },
    /// The page of the session is loading.
    AwaitLoad { session_id: String },
    /// The document's HTML is to be read.
    ReadHtml { session_id: String },
    /// The document's URL is to be read; the HTML is known.
    ReadUrl { session_id: String, body: String },
    /// The fetch succeeded.
    Finished { final_url: String, body: String },
    /// The fetch failed.
    Failed(CdpError),
}

/// A fetch stage as plain values.
pub enum StageView {
    CreateTarget,
    AttachToTarget(Seq<char>),
    EnableRuntime(Seq<char>),
    ResumeRuntime(Seq<char>),
    EnablePage(Seq<char>),
    Navigate(Seq<char>),
    AwaitLoad(Seq<char>),
    ReadHtml(Seq<char>),
    ReadUrl(Seq<char>, Seq<char>),
    Finished(Seq<char>, Seq<char>),
    Failed(CdpError),
}

impl View for FetchStage {
    type V = StageView;

    open spec fn view(&self) -> StageView {
        match self {
            FetchStage::CreateTarget => StageView::CreateTarget,
            FetchStage::AttachToTarget { target_id } => StageView::AttachToTarget(target_id@),
            FetchStage::EnableRuntime { session_id } => StageView::EnableRuntime(session_id@),
            FetchStage::ResumeRuntime { session_id } => StageView::ResumeRuntime(session_id@),
            FetchStage::EnablePage { session_id } => StageView::EnablePage(session_id@),
            FetchStage::Navigate { session_id } => StageView::Navigate(session_id@),
            FetchStage::AwaitLoad { session_id } => StageView::AwaitLoad(session_id@),
            FetchStage::ReadHtml { session_id } => StageView::ReadHtml(session_id@),
            FetchStage::ReadUrl { session_id, body } => StageView::ReadUrl(session_id@, body@),
            FetchStage::Finished { final_url, body } => StageView::Finished(final_url@, body@),
            FetchStage::Failed(e) => StageView::Failed(*e),
        }
    }
}

/// The position of a stage in the fetch; each step moves to a later one.
pub open spec fn stage_rank(s: StageView) -> nat {
    match s {
        StageView::CreateTarget => 0,
        StageView::AttachToTarget(_) => 1,
        StageView::EnableRuntime(_) => 2,
        StageView::ResumeRuntime(_) => 3,
        StageView::EnablePage(_) => 4,
        StageView::Navigate(_) => 5,
        StageView::AwaitLoad(_) => 6,
        StageView::ReadHtml(_) => 7,
        StageView::ReadUrl(_, _) => 8,
        StageView::Finished(_, _) => 9,
        StageView::Failed(_) => 9,
    }
}

/// The fetch is over.
pub open spec fn is_terminal(s: StageView) -> bool {
    s is Finished || s is Failed
}

/// The stage sends a command and waits for its reply.
pub open spec fn awaits_reply(s: StageView) -> bool {
    !is_terminal(s) && !(s is AwaitLoad)
}

/// The script evaluated to read the document's HTML.
pub open spec fn html_expression() -> Seq<char> {
    "document.documentElement.outerHTML"@
}

/// The script evaluated to read the document's URL.
pub open spec fn url_expression() -> Seq<char> {
    "document.URL"@
}

/// The command a stage sends; ids run from 1 in the order the commands are sent.
pub open spec fn stage_command(s: StageView, target_url: Seq<char>) -> Option<CommandView> {
    match s {
        StageView::CreateTarget => Some(CommandView {
            id: 1, method: "Target.createTarget"@, params: url_params("about:blank"@), session_id: None,
        }),
        StageView::AttachToTarget(t) => Some(CommandView {
            id: 2, method: "Target.attachToTarget"@, params: attach_params(t), session_id: None,
        }),
        StageView::EnableRuntime(sid) => Some(CommandView {
            id: 3, method: "Runtime.enable"@, params: "{}"@, session_id: Some(sid),
        }),
        StageView::ResumeRuntime(sid) => Some(CommandView {
            id: 4, method: "Runtime.runIfWaitingForDebugger"@, params: "{}"@, session_id: Some(sid),
        }),
        StageView::EnablePage(sid) => Some(CommandView {
            id: 5, method: "Page.enable"@, params: "{}"@, session_id: Some(sid),
        }),
        StageView::Navigate(sid) => Some(CommandView {
            id: 6, method: "Page.navigate"@, params: url_params(target_url), session_id: Some(sid),
        }),
        StageView::ReadHtml(sid) => Some(CommandView {
            id: 7, method: "Runtime.evaluate"@, params: evaluate_params(html_expression()), session_id: Some(sid),
        }),
        StageView::ReadUrl(sid, _) => Some(CommandView {
            id: 8, method: "Runtime.evaluate"@, params: evaluate_params(url_expression()), session_id: Some(sid),
        }),
        _ => None,
    }
}

/// A reply as plain values: the message text, or why the command failed.
pub open spec fn reply_view(reply: Result<String, CdpError>) -> Result<Seq<char>, CdpError> {
    match reply {
        Ok(t) => Ok(t@),
        Err(e) => Err(e),
    }
}

/// The stage after the reply to a stage's command. The reply to
/// `Runtime.enable`, `Runtime.runIfWaitingForDebugger` and `Page.enable` is not
/// needed: the fetch goes on whatever it was. The target id and the session id
/// are read from the `result` of their replies; a missing one fails the fetch.
/// The HTML is the string `result.result.value` of its reply, or empty; the final
/// URL is that of its reply, or the URL that was asked for.
pub open spec fn after_reply(
    s: StageView,
    target_url: Seq<char>,
    reply: Result<Seq<char>, CdpError>,
) -> StageView {
    match s {
        StageView::CreateTarget => match reply {
            Err(e) => StageView::Failed(e),
            Ok(t) => match json_str_at(t, "/result/targetId"@) {
                Some(id) => StageView::AttachToTarget(id),
                None => StageView::Failed(CdpError::MissingTargetId),
            },
        },
        StageView::AttachToTarget(_) => match reply {
            Err(e) => StageView::Failed(e),
            Ok(t) => match json_str_at(t, "/result/sessionId"@) {
                Some(sid) => StageView::EnableRuntime(sid),
                None => StageView::Failed(CdpError::MissingSessionId),
            },
        },
        StageView::EnableRuntime(sid) => StageView::ResumeRuntime(sid),
        StageView::ResumeRuntime(sid) => StageView::EnablePage(sid),
        StageView::EnablePage(sid) => StageView::Navigate(sid),
        StageView::Navigate(sid) => match reply {
            Err(e) => StageView::Failed(e),
            Ok(_) => StageView::AwaitLoad(sid),
        },
        StageView::ReadHtml(sid) => match reply {
            Err(e) => StageView::Failed(e),
            Ok(t) => StageView::ReadUrl(
                sid,
                match json_str_at(t, "/result/result/value"@) {
                    Some(v) => v,
                    None => Seq::<char>::empty(),
                },
            ),
        },
        StageView::ReadUrl(_, body) => match reply {
            Err(e) => StageView::Failed(e),
            Ok(t) => StageView::Finished(
                match json_str_at(t, "/result/result/value"@) {
                    Some(v) => v,
                    None => target_url,
                },
                body,
            ),
        },
        _ => s,
    }
}

/// The stage after waiting for the load: reading the HTML, or the failure.
pub open spec fn after_load(s: StageView, outcome: Result<(), CdpError>) -> StageView {
    match s {
        StageView::AwaitLoad(sid) => match outcome {
            Ok(_) => StageView::ReadHtml(sid),
            Err(e) => StageView::Failed(e),
        },
        _ => s,
    }
}

/// What the driver of a fetch is to do next.
pub enum FetchAction {
    /// Send this command and hand its reply to [`PageFetch::on_reply`].
    Send(CdpCommand),
    /// Wait for the page of this session to load and hand the outcome to
    /// [`PageFetch::on_load`].
    AwaitLoad(String),
    /// The fetch is over; [`PageFetch::outcome`] gives its result.
    Stop,
}

/// The fetch of one page in one browser session.
pub struct PageFetch {
    target_url: String,
    stage: FetchStage,
}

impl PageFetch {
    /// The URL the fetch navigates to.
    pub closed spec fn url(&self) -> Seq<char> {
        self.target_url@
    }

    /// The stage the fetch is in.
    pub closed spec fn stage(&self) -> StageView {
        self.stage@
    }

    /// A fetch of `target_url`, about to create its target.
    pub fn new(target_url: &str) -> (r: PageFetch)
        ensures
            r.url() == target_url@,
            r.stage() == StageView::CreateTarget,
    {
        PageFetch { target_url: String::from_str(target_url), stage: FetchStage::CreateTarget }
    }

    /// What the driver is to do in the current stage.
    pub fn action(&self) -> (r: FetchAction)
        ensures
            match stage_command(self.stage(), self.url()) {
                Some(c) => r matches FetchAction::Send(x) && x@ == c,
                None => match self.stage() {
                    StageView::AwaitLoad(sid) => r matches FetchAction::AwaitLoad(x) && x@ == sid,
                    _ => r is Stop,
                },
            },
    {
        match &self.stage {
            FetchStage::CreateTarget => FetchAction::Send(create_target_command(1)),
            FetchStage::AttachToTarget { target_id } => FetchAction::Send(CdpCommand {
                id: 2,
                session_id: None,
                method: String::from_str("Target.attachToTarget"),
                params: attach_params_text(target_id.as_str()),
            }),
            FetchStage::EnableRuntime { session_id } => FetchAction::Send(CdpCommand {
                id: 3,
                session_id: Some(session_id.clone()),
                method: String::from_str("Runtime.enable"),
                params: String::from_str("{}"),
            }),
            FetchStage::ResumeRuntime { session_id } => FetchAction::Send(CdpCommand {
                id: 4,
                session_id: Some(session_id.clone()),
                method: String::from_str("Runtime.runIfWaitingForDebugger"),
                params: String::from_str("{}"),
            }),
            FetchStage::EnablePage { session_id } => FetchAction::Send(CdpCommand {
                id: 5,
                session_id: Some(session_id.clone()),
                method: String::from_str("Page.enable"),
                params: String::from_str("{}"),
            }),
            FetchStage::Navigate { session_id } => FetchAction::Send(CdpCommand {
                id: 6,
                session_id: Some(session_id.clone()),
                method: String::from_str("Page.navigate"),
                params: url_params_text(self.target_url.as_str()),
            }),
            FetchStage::AwaitLoad { session_id } => FetchAction::AwaitLoad(session_id.clone()),
            FetchStage::ReadHtml { session_id } => FetchAction::Send(CdpCommand {
                id: 7,
                session_id: Some(session_id.clone()),
                method: String::from_str("Runtime.evaluate"),
                params: evaluate_params_text("document.documentElement.outerHTML"),
            }),
            FetchStage::ReadUrl { session_id, .. } => FetchAction::Send(CdpCommand {
                id: 8,
                session_id: Some(session_id.clone()),
                method: String::from_str("Runtime.evaluate"),
                params: evaluate_params_text("document.URL"),
            }),
            FetchStage::Finished { .. } => FetchAction::Stop,
            FetchStage::Failed(_) => FetchAction::Stop,
        }
    }

    /// Takes the reply to the command of the current stage. Outside a stage that
    /// sends a command the fetch is left as it is.
    pub fn on_reply(&mut self, reply: Result<String, CdpError>)
        ensures
            final(self).url() == old(self).url(),
            final(self).stage() == after_reply(old(self).stage(), old(self).url(), reply_view(reply)),
    {
        let mut stage = FetchStage::CreateTarget;
        std::mem::swap(&mut stage, &mut self.stage);
        let next = match stage {
            FetchStage::CreateTarget => match reply {
                Err(e) => FetchStage::Failed(e),
                Ok(t) => match str_at(t.as_str(), "/result/targetId") {
                    Some(id) => FetchStage::AttachToTarget { target_id: id },
                    None => FetchStage::Failed(CdpError::MissingTargetId),
                },
            },
            FetchStage::AttachToTarget { target_id } => match reply {
                Err(e) => FetchStage::Failed(e),
                Ok(t) => match str_at(t.as_str(), "/result/sessionId") {
                    Some(sid) => FetchStage::EnableRuntime { session_id: sid },
                    None => FetchStage::Failed(CdpError::MissingSessionId),
                },
            },
            FetchStage::EnableRuntime { session_id } => FetchStage::ResumeRuntime { session_id },
            FetchStage::ResumeRuntime { session_id } => FetchStage::EnablePage { session_id },
            FetchStage::EnablePage { session_id } => FetchStage::Navigate { session_id },
            FetchStage::Navigate { session_id } => match reply {
                Err(e) => FetchStage::Failed(e),
                Ok(_) => FetchStage::AwaitLoad { session_id },
            },
            FetchStage::ReadHtml { session_id } => match reply {
                Err(e) => FetchStage::Failed(e),
                Ok(t) => {
                    let body = match str_at(t.as_str(), "/result/result/value") {
                        Some(v) => v,
                        None => String::new(),
                    };
                    FetchStage::ReadUrl { session_id, body }
                },
            },
            FetchStage::ReadUrl { session_id, body } => match reply {
                Err(e) => FetchStage::Failed(e),
                Ok(t) => {
                    let final_url = match str_at(t.as_str(), "/result/result/value") {
                        Some(v) => v,
                        None => self.target_url.clone(),
                    };
                    FetchStage::Finished { final_url, body }
                },
            },
            other => other,
        };
        self.stage = next;
    }

    /// Takes the outcome of waiting for the page load. Outside the load stage the
    /// fetch is left as it is.
    pub fn on_load(&mut self, outcome: Result<(), CdpError>)
        ensures
            final(self).url() == old(self).url(),
            final(self).stage() == after_load(old(self).stage(), outcome),
    {
        let mut stage = FetchStage::CreateTarget;
        std::mem::swap(&mut stage, &mut self.stage);
        let next = match stage {
            FetchStage::AwaitLoad { session_id } => match outcome {
                Ok(_) => FetchStage::ReadHtml { session_id },
                Err(e) => FetchStage::Failed(e),
            },
            other => other,
        };
        self.stage = next;
    }

    /// The result of a fetch that is over: the final URL and the HTML, or why it
    /// failed; `None` while it is still running.
    pub fn outcome(self) -> (r: Option<Result<(String, String), CdpError>>)
        ensures
            match self.stage() {
                StageView::Finished(u, b) => r matches Some(Ok((x, y))) && x@ == u && y@ == b,
                StageView::Failed(e) => r == Some(Err::<(String, String), CdpError>(e)),
                _ => r is None,
            },
    {
        match self.stage {
            FetchStage::Finished { final_url, body } => Some(Ok((final_url, body))),
            FetchStage::Failed(e) => Some(Err(e)),
            _ => None,
        }
    }
}

/// The session a stage works in, once the target is attached.
pub open spec fn stage_session(s: StageView) -> Option<Seq<char>> {
    match s {
        StageView::EnableRuntime(sid) => Some(sid),
        StageView::ResumeRuntime(sid) => Some(sid),
        StageView::EnablePage(sid) => Some(sid),
        StageView::Navigate(sid) => Some(sid),
        StageView::AwaitLoad(sid) => Some(sid),
        StageView::ReadHtml(sid) => Some(sid),
        StageView::ReadUrl(sid, _) => Some(sid),
        _ => None,
    }
}

/// Every reply or load outcome moves a running fetch to a later stage, and a
/// finished or failed fetch stays as it is: a fetch ends after at most nine steps.
pub proof fn lemma_fetch_advances(
    s: StageView,
    target_url: Seq<char>,
    reply: Result<Seq<char>, CdpError>,
    load: Result<(), CdpError>,
)
    ensures
        awaits_reply(s) ==> stage_rank(after_reply(s, target_url, reply)) > stage_rank(s),
        s is AwaitLoad ==> stage_rank(after_load(s, load)) > stage_rank(s),
        is_terminal(s) ==> after_reply(s, target_url, reply) == s && after_load(s, load) == s,
        stage_rank(s) <= 9,
{
}

/// The commands of a fetch carry ids that grow with the stage: a later stage
/// sends a larger id, so the ids of one fetch are distinct and increasing.
pub proof fn lemma_command_ids_increase(s1: StageView, s2: StageView, target_url: Seq<char>)
    requires
        stage_command(s1, target_url) is Some,
        stage_command(s2, target_url) is Some,
        stage_rank(s1) < stage_rank(s2),
    ensures
        stage_command(s1, target_url).unwrap().id < stage_command(s2, target_url).unwrap().id,
{
}

/// Once attached, every later stage of a fetch that has not ended works in the
/// same session, and each of its commands is sent to that session.
pub proof fn lemma_session_is_kept(
    s: StageView,
    target_url: Seq<char>,
    reply: Result<Seq<char>, CdpError>,
    load: Result<(), CdpError>,
)
    requires
        stage_session(s) is Some,
    ensures
        !is_terminal(after_reply(s, target_url, reply)) ==> stage_session(after_reply(s, target_url, reply))
            == stage_session(s),
        !is_terminal(after_load(s, load)) ==> stage_session(after_load(s, load)) == stage_session(s),
        stage_command(s, target_url) matches Some(c) ==> c.session_id == stage_session(s),
{
}

/// The replies to `Runtime.enable`, `Runtime.runIfWaitingForDebugger` and
/// `Page.enable` do not change the course of a fetch: a failed one and any
/// successful one lead to the same stage.
pub proof fn lemma_preparation_failures_are_ignored(
    s: StageView,
    target_url: Seq<char>,
    text: Seq<char>,
    e: CdpError,
)
    requires
        s is EnableRuntime || s is ResumeRuntime || s is EnablePage,
    ensures
        after_reply(s, target_url, Err(e)) == after_reply(s, target_url, Ok(text)),
        !is_terminal(after_reply(s, target_url, Err(e))),
{
}

/// A fetch fails exactly when one of the commands it needs (creating, attaching,
/// navigating, reading) fails, when the load wait fails, or when the target id
/// or the session id is missing from its reply.
pub proof fn lemma_fetch_failures(
    s: StageView,
    target_url: Seq<char>,
    reply: Result<Seq<char>, CdpError>,
)
    requires
        awaits_reply(s),
    ensures
        after_reply(s, target_url, reply) is Failed <==> {
            ||| (reply is Err && !(s is EnableRuntime || s is ResumeRuntime || s is EnablePage))
            ||| (s is CreateTarget && (reply matches Ok(t) && json_str_at(t, "/result/targetId"@) is None))
            ||| (s is AttachToTarget && (reply matches Ok(t) && json_str_at(t, "/result/sessionId"@) is None))
        },
{
}

} // verus!
