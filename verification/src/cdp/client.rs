//! The single-endpoint CDP client: its configuration and how it is set up.
use vstd::prelude::*;
use std::time::Duration;
use crate::cdp::protocol::{create_target_command, url_params, CdpCommand, CdpError, CommandView};
use crate::json::{json_str_at, json_text_at, opt_view, str_at, text_at};
use crate::text::{has_ws_prefix, starts_with_ws, trim_trailing_slashes, without_trailing_slashes};
use crate::time::{duration_from_secs, secs_duration};

verus! {

/// The endpoint a client connects to when none is given.
pub open spec fn default_endpoint() -> Seq<char> {
    "http://127.0.0.1:9222"@
}

/// Where the host part of a `ws://` or `wss://` endpoint starts, after the `//`;
/// `None` when the endpoint has neither form.
pub open spec fn ws_host_start(e: Seq<char>) -> Option<int> {
    if e.len() >= 5 && starts_with_ws(e) && e[2] == ':' && e[3] == '/' && e[4] == '/' {
        Some(5)
    } else if e.len() >= 6 && starts_with_ws(e) && e[2] == 's' && e[3] == ':' && e[4] == '/' && e[5] == '/' {
        Some(6)
    } else {
        None
    }
}

/// The position of the first `/` at or after `i`, or the length of `e`.
pub open spec fn first_slash_from(e: Seq<char>, i: int) -> int
    decreases e.len() - i,
{
    if i < 0 || i >= e.len() {
        e.len() as int
    } else if e[i] == '/' {
        i
    } else {
        first_slash_from(e, i + 1)
    }
}

/// The HTTP form of an endpoint: `ws://host:port/devtools/browser/..` and
/// `wss://host/..` become `http://host:port` and `https://host` (the browser's
/// own address, without the WebSocket path); any other endpoint that starts
/// with `ws` has that `ws` replaced by `http`; the rest are already HTTP.
pub open spec fn http_endpoint(endpoint: Seq<char>) -> Seq<char> {
    match ws_host_start(endpoint) {
        Some(h) => "http"@ + endpoint.subrange(2, first_slash_from(endpoint, h)),
        None => if starts_with_ws(endpoint) {
            "http"@ + endpoint.subrange(2, endpoint.len() as int)
        } else {
            endpoint
        },
    }
}

fn ws_host_start_exec(e: &str) -> (r: Option<usize>)
    ensures
        match ws_host_start(e@) {
            Some(h) => r == Some(h as usize),
            None => r is None,
        },
{
    let n = e.unicode_len();
    if n >= 5 && has_ws_prefix(e) && e.get_char(2) == ':' && e.get_char(3) == '/' && e.get_char(4) == '/' {
        Some(5)
    } else if n >= 6 && has_ws_prefix(e) && e.get_char(2) == 's' && e.get_char(3) == ':' && e.get_char(4) == '/'
        && e.get_char(5) == '/' {
        Some(6)
    } else {
        None
    }
}

fn first_slash(e: &str, from: usize) -> (r: usize)
    requires
        from <= e@.len(),
    ensures
        r == first_slash_from(e@, from as int),
        from <= r <= e@.len(),
{
    let n = e.unicode_len();
    let mut j = from;
    while j < n && e.get_char(j) != '/'
        invariant
            from <= j <= n,
            n == e@.len(),
            first_slash_from(e@, from as int) == first_slash_from(e@, j as int),
        decreases n - j,
    {
        j = j + 1;
    }
    j
}

/// Where the browser describes itself: the HTTP form of the endpoint without
/// trailing slashes, followed by `/json/version`.
pub open spec fn version_url_of(endpoint: Seq<char>) -> Seq<char> {
    without_trailing_slashes(http_endpoint(endpoint)) + "/json/version"@
}

/// The browser-level WebSocket URL in a `/json/version` answer, or why there is none.
pub open spec fn debugger_url_of(body: Seq<char>) -> Result<Seq<char>, CdpError> {
    if json_text_at(body, ""@) is None {
        Err(CdpError::VersionUnreadable)
    } else {
        match json_str_at(body, "/webSocketDebuggerUrl"@) {
            Some(u) => Ok(u),
            None => Err(CdpError::MissingDebuggerUrl),
        }
    }
}

proof fn lemma_first_slash_at(e: Seq<char>, i: int, j: int)
    requires
        0 <= i <= j <= e.len(),
        forall|k: int| i <= k < j ==> e[k] != '/',
        j == e.len() || e[j] == '/',
    ensures
        first_slash_from(e, i) == j,
    decreases j - i,
{
    if i < j {
        lemma_first_slash_at(e, i + 1, j);
    }
}

/// A browser-level WebSocket endpoint `ws://host:port/devtools/browser/..` is
/// asked for its version at the same URL as its HTTP endpoint `http://host:port`.
pub proof fn lemma_ws_endpoint_uses_host(host: Seq<char>, path: Seq<char>)
    requires
        forall|k: int| 0 <= k < host.len() ==> host[k] != '/',
        path.len() == 0 || path[0] == '/',
    ensures
        version_url_of("ws://"@ + host + path) == version_url_of("http://"@ + host),
{
    reveal_strlit("ws://");
    reveal_strlit("http://");
    reveal_strlit("http");
    reveal_strlit("://");
    let e = "ws://"@ + host + path;
    let hl = host.len() as int;
    assert(e[2] == ':' && e[3] == '/' && e[4] == '/');
    assert(ws_host_start(e) == Some(5int));
    assert forall|k: int| 5 <= k < 5 + hl implies e[k] != '/' by {
        assert(e[k] == host[k - 5]);
    }
    if path.len() > 0 {
        assert(e[5 + hl] == path[0]);
    }
    lemma_first_slash_at(e, 5, 5 + hl);
    assert forall|k: int| 0 <= k < 3 + hl implies e.subrange(2, 5 + hl)[k] == ("://"@ + host)[k] by {
        if k >= 3 {
            assert(e[k + 2] == host[k - 3]);
        }
    }
    assert(e.subrange(2, 5 + hl) =~= "://"@ + host);
    assert("http"@ + ("://"@ + host) =~= "http://"@ + host);
    let h = "http://"@ + host;
    assert(h[0] == 'h');
    assert(!starts_with_ws(h));
    assert(ws_host_start(h) is None);
}

/// The `/json/version` URL of an endpoint is its HTTP form with the slashes at
/// its end removed, then `/json/version`: it never holds `//json/version`.
pub proof fn lemma_version_url_shape(endpoint: Seq<char>)
    ensures
        ({
            let v = version_url_of(endpoint);
            let w = without_trailing_slashes(http_endpoint(endpoint));
            &&& v == w + "/json/version"@
            &&& w == http_endpoint(endpoint).subrange(0, w.len() as int)
            &&& (w.len() == 0 || w.last() != '/')
            &&& forall|i: int| w.len() <= i < http_endpoint(endpoint).len() ==> http_endpoint(endpoint)[i] == '/'
        }),
{
    crate::text::lemma_trailing_slashes_removed(http_endpoint(endpoint));
}

/// The `/json/version` URL of `endpoint`.
pub fn version_url(endpoint: &str) -> (r: String)
    ensures
        r@ == version_url_of(endpoint@),
{
    let n = endpoint.unicode_len();
    let http = match ws_host_start_exec(endpoint) {
        Some(h) => {
            let end = first_slash(endpoint, h);
            String::from_str("http").concat(endpoint.substring_char(2, end))
        },
        None => if has_ws_prefix(endpoint) {
            String::from_str("http").concat(endpoint.substring_char(2, n))
        } else {
            String::from_str(endpoint)
        },
    };
    String::from_str(trim_trailing_slashes(http.as_str())).concat("/json/version")
}

/// Reads the browser-level WebSocket URL out of a `/json/version` answer.
pub fn debugger_url(body: &str) -> (r: Result<String, CdpError>)
    ensures
        match debugger_url_of(body@) {
            Ok(u) => r matches Ok(x) && x@ == u,
            Err(e) => r == Err::<String, CdpError>(e),
        },
{
    if text_at(body, "").is_none() {
        return Err(CdpError::VersionUnreadable);
    }
    match str_at(body, "/webSocketDebuggerUrl") {
        Some(u) => Ok(u),
        None => Err(CdpError::MissingDebuggerUrl),
    }
}

/// The settings of a client builder as plain values.
pub struct CdpClientBuilderView {
    pub endpoint: Seq<char>,
    pub name: Option<Seq<char>>,
    pub navigation_timeout: Duration,
    pub connection_timeout: Duration,
}

/// Builder of a [`CdpClient`].
pub struct CdpClientBuilder {
    endpoint: String,
    name: Option<String>,
    navigation_timeout: Duration,
    connection_timeout: Duration,
}

impl View for CdpClientBuilder {
    type V = CdpClientBuilderView;

    closed spec fn view(&self) -> CdpClientBuilderView {
        CdpClientBuilderView {
            endpoint: self.endpoint@,
            name: opt_view(self.name),
            navigation_timeout: self.navigation_timeout,
            connection_timeout: self.connection_timeout,
        }
    }
}

/// The name a client gets: the one set on the builder, or else its endpoint.
pub open spec fn client_name_of(b: CdpClientBuilderView) -> Seq<char> {
    match b.name {
        Some(n) => n,
        None => b.endpoint,
    }
}

impl Default for CdpClientBuilder {
    /// Endpoint `http://127.0.0.1:9222`, no name, a 30 s navigation timeout and a
    /// 10 s connection timeout.
    fn default() -> (r: Self)
        ensures
            r@ == (CdpClientBuilderView {
                endpoint: default_endpoint(),
                name: None,
                navigation_timeout: secs_duration(30),
                connection_timeout: secs_duration(10),
            }),
    {
        CdpClientBuilder {
            endpoint: String::from_str("http://127.0.0.1:9222"),
            name: None,
            navigation_timeout: duration_from_secs(30),
            connection_timeout: duration_from_secs(10),
        }
    }
}

impl CdpClientBuilder {
    /// Sets the CDP endpoint, as `http://host:port` or `ws://host:port/devtools/browser/..`.
    pub fn with_endpoint(self, endpoint: &str) -> (r: Self)
        ensures
            r@ == (CdpClientBuilderView { endpoint: endpoint@, ..self@ }),
    {
        CdpClientBuilder { endpoint: String::from_str(endpoint), ..self }
    }

    /// Sets the name the client reports.
    pub fn with_name(self, name: &str) -> (r: Self)
        ensures
            r@ == (CdpClientBuilderView { name: Some(name@), ..self@ }),
    {
        CdpClientBuilder { name: Some(String::from_str(name)), ..self }
    }

    /// Sets the time allowed for a page to load.
    pub fn with_navigation_timeout(self, timeout: Duration) -> (r: Self)
        ensures
            r@ == (CdpClientBuilderView { navigation_timeout: timeout, ..self@ }),
    {
        CdpClientBuilder { navigation_timeout: timeout, ..self }
    }

    /// Sets the time allowed for opening the WebSocket connection.
    pub fn with_connection_timeout(self, timeout: Duration) -> (r: Self)
        ensures
            r@ == (CdpClientBuilderView { connection_timeout: timeout, ..self@ }),
    {
        CdpClientBuilder { connection_timeout: timeout, ..self }
    }

    /// The endpoint.
    pub fn endpoint(&self) -> (r: &str)
        ensures
            r@ == self@.endpoint,
    {
        self.endpoint.as_str()
    }

    /// The name set on the builder, if any.
    pub fn name(&self) -> (r: Option<&str>)
        ensures
            match r {
                Some(n) => self@.name == Some(n@),
                None => self@.name is None,
            },
    {
        match &self.name {
            Some(n) => Some(n.as_str()),
            None => None,
        }
    }

    /// The navigation timeout.
    pub fn navigation_timeout(&self) -> (r: Duration)
        ensures
            r == self@.navigation_timeout,
    {
        self.navigation_timeout
    }

    /// The connection timeout.
    pub fn connection_timeout(&self) -> (r: Duration)
        ensures
            r == self@.connection_timeout,
    {
        self.connection_timeout
    }

    /// The `/json/version` URL that building asks for the browser's WebSocket URL.
    pub fn version_url(&self) -> (r: String)
        ensures
            r@ == version_url_of(self@.endpoint),
    {
        version_url(self.endpoint.as_str())
    }

    /// The command that checks the endpoint once connected: `Target.createTarget`
    /// on `about:blank` with id 1.
    pub fn probe_command(&self) -> (r: CdpCommand)
        ensures
            r@ == (CommandView {
                id: 1,
                method: "Target.createTarget"@,
                params: url_params("about:blank"@),
                session_id: None,
            }),
    {
        create_target_command(1)
    }

    /// The client, once the endpoint answered with `browser_ws_url` and passed the check.
    pub fn finish(self, browser_ws_url: String) -> (r: CdpClient)
        ensures
            r@ == (CdpClientView {
                browser_ws_url: browser_ws_url@,
                navigation_timeout: self@.navigation_timeout,
                connection_timeout: self@.connection_timeout,
                name: client_name_of(self@),
            }),
    {
        let name = match self.name {
            Some(n) => n,
            None => self.endpoint.clone(),
        };
        CdpClient {
            browser_ws_url,
            navigation_timeout: self.navigation_timeout,
            connection_timeout: self.connection_timeout,
            name,
        }
    }
}

/// A client's settings as plain values.
pub struct CdpClientView {
    pub browser_ws_url: Seq<char>,
    pub navigation_timeout: Duration,
    pub connection_timeout: Duration,
    pub name: Seq<char>,
}

/// A client of one CDP endpoint (Chrome, Lightpanda, Obscura, ..).
pub struct CdpClient {
    browser_ws_url: String,
    navigation_timeout: Duration,
    connection_timeout: Duration,
    name: String,
}

impl View for CdpClient {
    type V = CdpClientView;

    closed spec fn view(&self) -> CdpClientView {
        CdpClientView {
            browser_ws_url: self.browser_ws_url@,
            navigation_timeout: self.navigation_timeout,
            connection_timeout: self.connection_timeout,
            name: self.name@,
        }
    }
}

impl CdpClient {
    /// A builder with the default settings.
    pub fn builder() -> (r: CdpClientBuilder)
        ensures
            r@ == (CdpClientBuilderView {
                endpoint: default_endpoint(),
                name: None,
                navigation_timeout: secs_duration(30),
                connection_timeout: secs_duration(10),
            }),
    {
        CdpClientBuilder::default()
    }

    /// The endpoint's name.
    pub fn endpoint_name(&self) -> (r: &str)
        ensures
            r@ == self@.name,
    {
        self.name.as_str()
    }

    /// The name the client reports.
    pub fn name(&self) -> (r: &str)
        ensures
            r@ == self@.name,
    {
        self.name.as_str()
    }

    /// The browser-level WebSocket URL the client connects to.
    pub fn browser_ws_url(&self) -> (r: &str)
        ensures
            r@ == self@.browser_ws_url,
    {
        self.browser_ws_url.as_str()
    }

    /// The time allowed for a page to load.
    pub fn navigation_timeout(&self) -> (r: Duration)
        ensures
            r == self@.navigation_timeout,
    {
        self.navigation_timeout
    }

    /// The time allowed for opening the connection.
    pub fn connection_timeout(&self) -> (r: Duration)
        ensures
            r == self@.connection_timeout,
    {
        self.connection_timeout
    }
}

} // verus!
