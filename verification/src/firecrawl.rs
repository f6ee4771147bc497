//! Firecrawl client: configuration with several API tokens, one drawn at random
//! per request, and what is made of a scrape.
use vstd::prelude::*;
use crate::random::{draw_below, Draw};
use crate::retry::Retrier;
use crate::text::{list_items, split_list};

verus! {

/// A Firecrawl builder's or client's settings as plain values.
pub struct FirecrawlSettings {
    pub name: Seq<char>,
    pub api_tokens: Seq<Seq<char>>,
    pub max_retries: nat,
}

/// The default settings: name `firecrawl`, no token, three retries.
pub open spec fn default_firecrawl_settings() -> FirecrawlSettings {
    FirecrawlSettings { name: "firecrawl"@, api_tokens: Seq::empty(), max_retries: 3 }
}

/// A content format asked of a scrape.
#[derive(Debug, Clone, Copy, PartialEq, Eq, Structural)]
pub enum ScrapeFormat {
    /// The page's HTML.
    Html,
}

/// What one scrape asks Firecrawl for.
pub struct ScrapePlan {
    /// The token the scrape is made with.
    pub token: String,
    /// The page to scrape.
    pub url: String,
    /// The formats asked for.
    pub formats: Vec<ScrapeFormat>,
    /// Whether only the main content is asked for.
    pub only_main_content: bool,
}

/// Why a Firecrawl client could not be built or a scrape gave nothing.
#[derive(Debug, PartialEq, Eq)]
pub enum FirecrawlError {
    /// No API token was set.
    NoTokens,
    /// The scrape returned no HTML.
    EmptyHtml,
}

/// Builder of a [`FirecrawlClient`].
pub struct FirecrawlClientBuilder {
    name: String,
    api_tokens: Vec<String>,
    max_retries: usize,
}

impl View for FirecrawlClientBuilder {
    type V = FirecrawlSettings;

    closed spec fn view(&self) -> FirecrawlSettings {
        FirecrawlSettings {
            name: self.name@,
            api_tokens: self.api_tokens@.map_values(|t: String| t@),
            max_retries: self.max_retries as nat,
        }
    }
}

impl Default for FirecrawlClientBuilder {
    fn default() -> (r: Self)
        ensures
            r@ == default_firecrawl_settings(),
    {
        let r = FirecrawlClientBuilder { name: String::from_str("firecrawl"), api_tokens: Vec::new(), max_retries: 3 };
        assert(r@.api_tokens =~= Seq::<Seq<char>>::empty());
        r
    }
}

impl FirecrawlClientBuilder {
    /// Sets the name the client reports.
    pub fn with_name(self, name: &str) -> (r: Self)
        ensures
            r@ == (FirecrawlSettings { name: name@, ..self@ }),
    {
        FirecrawlClientBuilder { name: String::from_str(name), ..self }
    }

    /// Sets the API tokens; each request uses one of them, drawn at random.
    pub fn with_tokens(self, tokens: &[&str]) -> (r: Self)
        ensures
            r@ == (FirecrawlSettings { api_tokens: tokens@.map_values(|t: &str| t@), ..self@ }),
    {
        let mut api_tokens: Vec<String> = Vec::new();
        let n = tokens.len();
        for i in 0..n
            invariant
                n == tokens@.len(),
                api_tokens@.map_values(|t: String| t@) == tokens@.take(i as int).map_values(|t: &str| t@),
        {
            let ghost before = api_tokens@.map_values(|t: String| t@);
            api_tokens.push(String::from_str(tokens[i]));
            assert(api_tokens@.map_values(|t: String| t@) =~= before.push(tokens@[i as int]@));
            assert(tokens@.take(i + 1).map_values(|t: &str| t@) =~= tokens@.take(i as int).map_values(
                |t: &str| t@,
            ).push(tokens@[i as int]@));
        }
        assert(tokens@.take(n as int) =~= tokens@);
        FirecrawlClientBuilder { api_tokens, ..self }
    }

    /// Sets the API tokens from a comma-separated list, such as the value of an
    /// environment variable: the items, trimmed, without empty ones.
    pub fn with_token_list(self, list: &str) -> (r: Self)
        ensures
            r@ == (FirecrawlSettings { api_tokens: list_items(list@), ..self@ }),
    {
        let api_tokens = split_list(list);
        FirecrawlClientBuilder { api_tokens, ..self }
    }

    /// Sets how often a failed request is retried.
    pub fn with_max_retries(self, max_retries: usize) -> (r: Self)
        ensures
            r@ == (FirecrawlSettings { max_retries: max_retries as nat, ..self@ }),
    {
        FirecrawlClientBuilder { max_retries, ..self }
    }

    /// The API tokens set so far.
    pub fn api_tokens(&self) -> (r: &Vec<String>)
        ensures
            r@.map_values(|t: String| t@) == self@.api_tokens,
    {
        &self.api_tokens
    }

    /// The client, which needs one API token at least.
    pub fn build(self) -> (r: Result<FirecrawlClient, FirecrawlError>)
        ensures
            self@.api_tokens.len() == 0 ==> r == Err::<FirecrawlClient, FirecrawlError>(FirecrawlError::NoTokens),
            self@.api_tokens.len() > 0 ==> (r matches Ok(c) && c@ == self@),
    {
        if self.api_tokens.len() == 0 {
            return Err(FirecrawlError::NoTokens);
        }
        Ok(FirecrawlClient { name: self.name, api_tokens: self.api_tokens, max_retries: self.max_retries })
    }
}

/// A Firecrawl client's settings; the HTTP connection is the caller's.
pub struct FirecrawlClient {
    name: String,
    api_tokens: Vec<String>,
    max_retries: usize,
}

impl View for FirecrawlClient {
    type V = FirecrawlSettings;

    closed spec fn view(&self) -> FirecrawlSettings {
        FirecrawlSettings {
            name: self.name@,
            api_tokens: self.api_tokens@.map_values(|t: String| t@),
            max_retries: self.max_retries as nat,
        }
    }
}

impl FirecrawlClient {
    #[verifier::type_invariant]
    spec fn has_token(self) -> bool {
        self.api_tokens.len() > 0
    }

    /// A builder with the default settings.
    pub fn builder() -> (r: FirecrawlClientBuilder)
        ensures
            r@ == default_firecrawl_settings(),
    {
        FirecrawlClientBuilder::default()
    }

    /// The name the client reports.
    pub fn name(&self) -> (r: &str)
        ensures
            r@ == self@.name,
    {
        self.name.as_str()
    }

    /// The API tokens; there is one at least.
    pub fn api_tokens(&self) -> (r: &Vec<String>)
        ensures
            r@.map_values(|t: String| t@) == self@.api_tokens,
            self@.api_tokens.len() > 0,
    {
        proof {
            use_type_invariant(self);
        }
        &self.api_tokens
    }

    /// How often a failed request is retried.
    pub fn max_retries(&self) -> (r: usize)
        ensures
            r == self@.max_retries,
    {
        self.max_retries
    }

    /// The token at position `draw`.
    pub fn token_at(&self, draw: usize) -> (r: String)
        requires
            draw < self@.api_tokens.len(),
        ensures
            r@ == self@.api_tokens[draw as int],
    {
        self.api_tokens[draw].clone()
    }

    /// A token for the next attempt, drawn at random among the client's tokens.
    pub fn pick_token(&self) -> (r: String)
        ensures
            self@.api_tokens.contains(r@),
    {
        proof {
            use_type_invariant(self);
        }
        let draw = draw_below(self.api_tokens.len());
        let t = self.token_drawn(&draw);
        assert(self@.api_tokens[draw.drawn() as int] == t@);
        t
    }

    /// The token at the position drawn, the draw made among all the tokens.
    fn token_drawn(&self, draw: &Draw) -> (r: String)
        requires
            draw.among() == self@.api_tokens.len(),
        ensures
            draw.drawn() < self@.api_tokens.len(),
            r@ == self@.api_tokens[draw.drawn() as int],
    {
        self.token_at(draw.value())
    }

    /// What one scrape attempt of `url` asks for: a token drawn at random among
    /// the client's, the HTML of the page, and its main content only.
    pub fn plan_scrape(&self, url: &str) -> (r: ScrapePlan)
        ensures
            self@.api_tokens.contains(r.token@),
            r.url@ == url@,
            r.formats@ == seq![ScrapeFormat::Html],
            r.only_main_content,
    {
        let token = self.pick_token();
        let mut formats: Vec<ScrapeFormat> = Vec::new();
        formats.push(ScrapeFormat::Html);
        ScrapePlan { token, url: String::from_str(url), formats, only_main_content: true }
    }

    /// The retry budget of one request.
    pub fn retrier(&self) -> (r: Retrier)
        ensures
            r.well_formed(),
            r.budget() == self@.max_retries,
            r.retried() == 0,
    {
        Retrier::new(self.max_retries)
    }

    /// The page of a scrape of `url`: the URL asked for and the HTML; a scrape
    /// without HTML is an error.
    pub fn scraped_page(html: Option<String>, url: &str) -> (r: Result<(String, String), FirecrawlError>)
        ensures
            html is None ==> r == Err::<(String, String), FirecrawlError>(FirecrawlError::EmptyHtml),
            html matches Some(h) ==> (r matches Ok((u, b)) && u@ == url@ && b@ == h@),
    {
        match html {
            Some(h) => Ok((String::from_str(url), h)),
            None => Err(FirecrawlError::EmptyHtml),
        }
    }
}

} // verus!
