//! Jina Reader client: configuration, request planning and response handling.
use vstd::prelude::*;
use std::time::Duration;
use crate::json::opt_view;
use crate::retry::Retrier;
use crate::time::{duration_from_secs, secs_duration};

verus! {

/// Output format asked of the Jina Reader.
#[derive(Debug, Clone, Copy, PartialEq, Eq, Structural)]
pub enum JinaFormat {
    /// Clean Markdown (the default).
    Markdown,
    /// Full HTML.
    Html,
    /// Plain text.
    Text,
}

/// The `Accept` header value that selects a format.
pub open spec fn accept_header_of(format: JinaFormat) -> Seq<char> {
    match format {
        JinaFormat::Markdown => "text/markdown"@,
        JinaFormat::Html => "text/html"@,
        JinaFormat::Text => "text/plain"@,
    }
}

impl Default for JinaFormat {
    fn default() -> (r: Self)
        ensures
            r == JinaFormat::Markdown,
    {
        JinaFormat::Markdown
    }
}

impl JinaFormat {
    /// The MIME type sent in the `Accept` header for this format.
    pub fn accept_header(&self) -> (r: &'static str)
        ensures
            r@ == accept_header_of(*self),
    {
        match self {
            JinaFormat::Markdown => "text/markdown",
            JinaFormat::Html => "text/html",
            JinaFormat::Text => "text/plain",
        }
    }
}


/// The name a Jina client reports when none is set.
pub open spec fn default_jina_name() -> Seq<char> {
    "jina"@
}

/// A Jina builder's or client's settings as plain values.
pub struct JinaSettings {
    pub name: Seq<char>,
    pub api_token: Option<Seq<char>>,
    pub timeout: Duration,
    pub max_retries: nat,
    pub format: JinaFormat,
}

/// The default settings: name `jina`, no token, a 60 s timeout, three retries, Markdown.
pub open spec fn default_jina_settings() -> JinaSettings {
    JinaSettings {
        name: default_jina_name(),
        api_token: None,
        timeout: secs_duration(60),
        max_retries: 3,
        format: JinaFormat::Markdown,
    }
}

/// Builder of a [`JinaClient`].
pub struct JinaClientBuilder {
    name: String,
    api_token: Option<String>,
    timeout: Duration,
    max_retries: usize,
    format: JinaFormat,
}

impl View for JinaClientBuilder {
    type V = JinaSettings;

    closed spec fn view(&self) -> JinaSettings {
        JinaSettings {
            name: self.name@,
            api_token: opt_view(self.api_token),
            timeout: self.timeout,
            max_retries: self.max_retries as nat,
            format: self.format,
        }
    }
}

impl Default for JinaClientBuilder {
    fn default() -> (r: Self)
        ensures
            r@ == default_jina_settings(),
    {
        JinaClientBuilder {
            name: String::from_str("jina"),
            api_token: None,
            timeout: duration_from_secs(60),
            max_retries: 3,
            format: JinaFormat::default(),
        }
    }
}

impl JinaClientBuilder {
    /// Sets the name the client reports.
    pub fn with_name(self, name: &str) -> (r: Self)
        ensures
            r@ == (JinaSettings { name: name@, ..self@ }),
    {
        JinaClientBuilder { name: String::from_str(name), ..self }
    }

    /// Sets the API token (the free tier needs none).
    pub fn with_token(self, token: &str) -> (r: Self)
        ensures
            r@ == (JinaSettings { api_token: Some(token@), ..self@ }),
    {
        JinaClientBuilder { api_token: Some(String::from_str(token)), ..self }
    }

    /// Sets the API token to the value of an environment variable, as read by
    /// the caller: an unset or empty variable leaves the client without a token.
    pub fn with_token_value(self, value: Option<String>) -> (r: Self)
        ensures
            r@ == (JinaSettings {
                api_token: match value {
                    Some(v) => if v@.len() > 0 { Some(v@) } else { None },
                    None => None,
                },
                ..self@
            }),
    {
        let api_token = match value {
            Some(v) => if v.as_str().unicode_len() > 0 { Some(v) } else { None },
            None => None,
        };
        JinaClientBuilder { api_token, ..self }
    }

    /// Sets the request timeout.
    pub fn with_timeout(self, timeout: Duration) -> (r: Self)
        ensures
            r@ == (JinaSettings { timeout, ..self@ }),
    {
        JinaClientBuilder { timeout, ..self }
    }

    /// Sets how often a failed request is retried.
    pub fn with_max_retries(self, max_retries: usize) -> (r: Self)
        ensures
            r@ == (JinaSettings { max_retries: max_retries as nat, ..self@ }),
    {
        JinaClientBuilder { max_retries, ..self }
    }

    /// Sets the output format.
    pub fn with_format(self, format: JinaFormat) -> (r: Self)
        ensures
            r@ == (JinaSettings { format, ..self@ }),
    {
        JinaClientBuilder { format, ..self }
    }

    /// The client with these settings.
    pub fn build(self) -> (r: JinaClient)
        ensures
            r@ == self@,
    {
        JinaClient::from_builder(self)
    }
}

/// A Jina Reader client's settings; the HTTP connection is the caller's.
pub struct JinaClient {
    name: String,
    api_token: Option<String>,
    timeout: Duration,
    max_retries: usize,
    format: JinaFormat,
}

impl View for JinaClient {
    type V = JinaSettings;

    closed spec fn view(&self) -> JinaSettings {
        JinaSettings {
            name: self.name@,
            api_token: opt_view(self.api_token),
            timeout: self.timeout,
            max_retries: self.max_retries as nat,
            format: self.format,
        }
    }
}

/// The Reader URL that fetches `url`.
pub open spec fn reader_url_of(url: Seq<char>) -> Seq<char> {
    "https://r.jina.ai/"@ + url
}

/// The headers of a Reader request: `Accept` for the format, and
/// `Authorization: Bearer <token>` when there is a token.
pub open spec fn reader_headers(format: JinaFormat, api_token: Option<Seq<char>>) -> Seq<(Seq<char>, Seq<char>)> {
    seq![("Accept"@, accept_header_of(format))] + match api_token {
        Some(t) => seq![("Authorization"@, "Bearer "@ + t)],
        None => Seq::empty(),
    }
}

/// A header as plain values.
pub open spec fn header_view(h: (String, String)) -> (Seq<char>, Seq<char>) {
    (h.0@, h.1@)
}

/// Why a Reader request failed.
#[derive(Debug, PartialEq, Eq)]
pub enum JinaError {
    /// The Reader answered with an error status; the status and the body.
    Status { status: u16, body: String },
}

impl Default for JinaClient {
    fn default() -> (r: Self)
        ensures
            r@ == default_jina_settings(),
    {
        JinaClient::builder().build()
    }
}

impl JinaClient {
    /// A builder with the default settings.
    pub fn builder() -> (r: JinaClientBuilder)
        ensures
            r@ == default_jina_settings(),
    {
        JinaClientBuilder::default()
    }

    /// The client with a builder's settings.
    fn from_builder(builder: JinaClientBuilder) -> (r: Self)
        ensures
            r@ == builder@,
    {
        JinaClient {
            name: builder.name,
            api_token: builder.api_token,
            timeout: builder.timeout,
            max_retries: builder.max_retries,
            format: builder.format,
        }
    }

    /// The name the client reports.
    pub fn name(&self) -> (r: &str)
        ensures
            r@ == self@.name,
    {
        self.name.as_str()
    }

    /// The API token, if any.
    pub fn api_token(&self) -> (r: Option<&str>)
        ensures
            match r {
                Some(t) => self@.api_token == Some(t@),
                None => self@.api_token is None,
            },
    {
        match &self.api_token {
            Some(t) => Some(t.as_str()),
            None => None,
        }
    }

    /// The request timeout.
    pub fn timeout(&self) -> (r: Duration)
        ensures
            r == self@.timeout,
    {
        self.timeout
    }

    /// How often a failed request is retried.
    pub fn max_retries(&self) -> (r: usize)
        ensures
            r == self@.max_retries,
    {
        self.max_retries
    }

    /// The output format.
    pub fn format(&self) -> (r: JinaFormat)
        ensures
            r == self@.format,
    {
        self.format
    }

    /// The Reader URL that fetches `url`.
    pub fn reader_url(&self, url: &str) -> (r: String)
        ensures
            r@ == reader_url_of(url@),
    {
        String::from_str("https://r.jina.ai/").concat(url)
    }

    /// The headers of every Reader request of this client.
    pub fn request_headers(&self) -> (r: Vec<(String, String)>)
        ensures
            r@.map_values(|h: (String, String)| header_view(h)) == reader_headers(self@.format, self@.api_token),
    {
        let mut headers: Vec<(String, String)> = Vec::new();
        headers.push((String::from_str("Accept"), String::from_str(self.format.accept_header())));
        match &self.api_token {
            Some(t) => {
                headers.push((String::from_str("Authorization"), String::from_str("Bearer ").concat(t.as_str())));
            },
            None => {},
        }
        assert(headers@.map_values(|h: (String, String)| header_view(h)) =~= reader_headers(
            self@.format,
            self@.api_token,
        ));
        headers
    }

    /// The retry budget of one request.
    pub fn retrier(&self) -> (r: Retrier)
        ensures
            r.well_formed(),
            r.budget() == self@.max_retries,
            r.retried() == 0,
    {
        Retrier::new(self.max_retries)
    }

    /// The page, from the Reader's answer: its final URL, status and body; a
    /// status of 400 or more is an error.
    pub fn check_answer(final_url: String, status: u16, body: String) -> (r: Result<(String, u16, String), JinaError>)
        ensures
            status >= 400 ==> (r matches Err(JinaError::Status { status: s, body: b }) && s == status && b@ == body@),
            status < 400 ==> (r matches Ok((u, s, b)) && u@ == final_url@ && s == status && b@ == body@),
    {
        if status >= 400 {
            Err(JinaError::Status { status, body })
        } else {
            Ok((final_url, status, body))
        }
    }
}

} // verus!
