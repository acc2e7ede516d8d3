//! Configuring a client: who it says it is, where it sends requests, and how
//! it paces and retries them.

use vstd::prelude::*;
use vstd::string::StringExecFns;
use crate::error::{Error, Result};
use crate::limit::{is_conservative, RateLimit};
use crate::text::{option_text, owned};

verus! {

/// The url every route is appended to unless the builder is told otherwise.
pub open spec fn default_base_url() -> Seq<char> {
    "https://api.crossref.org"@
}

/// How many times a `429` is retried before giving up, unless the builder is
/// told otherwise.
pub const DEFAULT_MAX_RETRIES: u32 = 3;

/// The `User-Agent` a polite client sends: the library, its version and where
/// it lives, and the address crossref can write to.
pub open spec fn polite_agent(email: Seq<char>) -> Seq<char> {
    "crossref-client/0.2.0 (https://github.com/EmilLindfors/crossref-client; mailto:"@ + email
        + ")"@
}

/// Whether `http::HeaderValue::from_str` accepts `s` as a header value.
pub uninterp spec fn header_value_accepted(s: Seq<char>) -> bool;

/// `reqwest::header::HeaderValue::from_str(s).is_ok()`: whether `s` can be
/// sent as the value of a header.
#[verifier::external_body]
fn accepts_header_value(s: &str) -> (r: bool)
    ensures
        r == header_value_accepted(s@),
{
    reqwest::header::HeaderValue::from_str(s).is_ok()
}

/// Builds a client configuration.
///
/// Every setter takes an `Option`, so options that are themselves optional --
/// a command line flag, a config field -- can be passed straight through;
/// [`None`] clears what was set.
#[derive(Debug)]
pub struct CrossrefBuilder {
    user_agent: Option<String>,
    plus_token: Option<String>,
    base_url: Option<String>,
    rate_limit: Option<RateLimit>,
    max_retries: Option<u32>,
}

/// What a client is built from, once the builder's defaults are filled in.
#[derive(Debug)]
pub struct ClientSettings {
    /// the url every route is appended to
    pub base_url: String,
    /// the `User-Agent` header, if one is sent
    pub user_agent: Option<String>,
    /// the `Authorization` header carrying a Plus token, if one is sent
    pub plus_token: Option<String>,
    /// the budget to assume until crossref reports one
    pub rate_limit: RateLimit,
    /// how many times a `429` is retried
    pub max_retries: u32,
}

impl CrossrefBuilder {
    /// The `User-Agent` set, if any.
    pub closed spec fn spec_user_agent(&self) -> Option<Seq<char>> {
        option_text(self.user_agent)
    }

    /// The Plus token set, if any.
    pub closed spec fn spec_token(&self) -> Option<Seq<char>> {
        option_text(self.plus_token)
    }

    /// The base url set, if any.
    pub closed spec fn spec_base_url(&self) -> Option<Seq<char>> {
        option_text(self.base_url)
    }

    /// The budget set, if any.
    pub closed spec fn spec_rate_limit(&self) -> Option<RateLimit> {
        self.rate_limit
    }

    /// The retry count set, if any.
    pub closed spec fn spec_max_retries(&self) -> Option<u32> {
        self.max_retries
    }

    /// Constructs a new `CrossrefBuilder` with nothing set.
    pub fn new() -> (r: CrossrefBuilder)
        ensures
            r.spec_user_agent() is None,
            r.spec_token() is None,
            r.spec_base_url() is None,
            r.spec_rate_limit() is None,
            r.spec_max_retries() is None,
    {
        CrossrefBuilder {
            user_agent: None,
            plus_token: None,
            base_url: None,
            rate_limit: None,
            max_retries: None,
        }
    }

    /// Be polite: identify yourself by email and get routed to crossref's
    /// polite pool.
    ///
    /// Sends a `User-Agent` in the shape crossref asks for, e.g.
    /// `crossref-client/0.2.0 (https://github.com/…; mailto:you@example.com)`.
    /// [`None`] leaves the agent as it was.
    pub fn polite(self, email: Option<&str>) -> (r: CrossrefBuilder)
        ensures
            r.spec_user_agent() == match email {
                Some(e) => Some(polite_agent(e@)),
                None => self.spec_user_agent(),
            },
            r.spec_token() == self.spec_token(),
            r.spec_base_url() == self.spec_base_url(),
            r.spec_rate_limit() == self.spec_rate_limit(),
            r.spec_max_retries() == self.spec_max_retries(),
    {
        match email {
            Some(e) => {
                let mut agent = owned(
                    "crossref-client/0.2.0 (https://github.com/EmilLindfors/crossref-client; mailto:",
                );
                agent.append(e);
                agent.append(")");
                CrossrefBuilder { user_agent: Some(agent), ..self }
            },
            None => self,
        }
    }

    /// Set the user agent directly.
    pub fn user_agent(self, user_agent: Option<&str>) -> (r: CrossrefBuilder)
        ensures
            r.spec_user_agent() == match user_agent {
                Some(a) => Some(a@),
                None => None::<Seq<char>>,
            },
            r.spec_token() == self.spec_token(),
            r.spec_base_url() == self.spec_base_url(),
            r.spec_rate_limit() == self.spec_rate_limit(),
            r.spec_max_retries() == self.spec_max_retries(),
    {
        let user_agent = match user_agent {
            Some(a) => Some(owned(a)),
            None => None,
        };
        CrossrefBuilder { user_agent, ..self }
    }

    /// Set a crossref Plus service API token.
    pub fn token(self, token: Option<&str>) -> (r: CrossrefBuilder)
        ensures
            r.spec_token() == match token {
                Some(t) => Some(t@),
                None => None::<Seq<char>>,
            },
            r.spec_user_agent() == self.spec_user_agent(),
            r.spec_base_url() == self.spec_base_url(),
            r.spec_rate_limit() == self.spec_rate_limit(),
            r.spec_max_retries() == self.spec_max_retries(),
    {
        let plus_token = match token {
            Some(t) => Some(owned(t)),
            None => None,
        };
        CrossrefBuilder { plus_token, ..self }
    }

    /// Send requests somewhere other than `https://api.crossref.org`.
    ///
    /// Routes are appended verbatim, so the url must not end in a `/`.
    pub fn base_url(self, base_url: Option<&str>) -> (r: CrossrefBuilder)
        ensures
            r.spec_base_url() == match base_url {
                Some(u) => Some(u@),
                None => None::<Seq<char>>,
            },
            r.spec_user_agent() == self.spec_user_agent(),
            r.spec_token() == self.spec_token(),
            r.spec_rate_limit() == self.spec_rate_limit(),
            r.spec_max_retries() == self.spec_max_retries(),
    {
        let base_url = match base_url {
            Some(u) => Some(owned(u)),
            None => None,
        };
        CrossrefBuilder { base_url, ..self }
    }

    /// The request budget to assume until crossref reports its own.
    pub fn rate_limit(self, rate_limit: Option<RateLimit>) -> (r: CrossrefBuilder)
        ensures
            r.spec_rate_limit() == rate_limit,
            r.spec_user_agent() == self.spec_user_agent(),
            r.spec_token() == self.spec_token(),
            r.spec_base_url() == self.spec_base_url(),
            r.spec_max_retries() == self.spec_max_retries(),
    {
        CrossrefBuilder { rate_limit, ..self }
    }

    /// How many times a `429` is retried before giving up with
    /// [`Error::RateLimited`]; `0` disables retrying.
    pub fn max_retries(self, max_retries: Option<u32>) -> (r: CrossrefBuilder)
        ensures
            r.spec_max_retries() == max_retries,
            r.spec_user_agent() == self.spec_user_agent(),
            r.spec_token() == self.spec_token(),
            r.spec_base_url() == self.spec_base_url(),
            r.spec_rate_limit() == self.spec_rate_limit(),
    {
        CrossrefBuilder { max_retries, ..self }
    }

    /// The settings a client is built from: what was set, and the defaults
    /// for the rest -- `https://api.crossref.org`, the conservative budget
    /// and three retries.
    ///
    /// Fails with [`Error::Config`] if the user agent or the token cannot be
    /// sent as a header value.
    pub fn settings(self) -> (r: Result<ClientSettings>)
        ensures
            match (self.spec_user_agent(), self.spec_token()) {
                (Some(a), _) if !header_value_accepted(a) => r matches Err(Error::Config { msg })
                    && msg@ == "failed to create User Agent header for `"@ + a + "`"@,
                (_, Some(t)) if !header_value_accepted(t) => r matches Err(Error::Config { msg })
                    && msg@ == "failed to create AUTHORIZATION header for `"@ + t + "`"@,
                _ => r matches Ok(s) && option_text(s.user_agent) == self.spec_user_agent()
                    && option_text(s.plus_token) == self.spec_token() && s.base_url@ == match self.spec_base_url() {
                    Some(u) => u,
                    None => default_base_url(),
                } && match self.spec_rate_limit() {
                    Some(rate) => s.rate_limit == rate,
                    None => is_conservative(s.rate_limit),
                } && s.max_retries == match self.spec_max_retries() {
                    Some(n) => n,
                    None => 3,
                },
            },
    {
        match &self.user_agent {
            Some(agent) => {
                if !accepts_header_value(agent.as_str()) {
                    let mut msg = owned("failed to create User Agent header for `");
                    msg.append(agent.as_str());
                    msg.append("`");
                    return Err(Error::Config { msg });
                }
            },
            None => {},
        }
        match &self.plus_token {
            Some(token) => {
                if !accepts_header_value(token.as_str()) {
                    let mut msg = owned("failed to create AUTHORIZATION header for `");
                    msg.append(token.as_str());
                    msg.append("`");
                    return Err(Error::Config { msg });
                }
            },
            None => {},
        }
        let base_url = match self.base_url {
            Some(u) => u,
            None => owned("https://api.crossref.org"),
        };
        let rate_limit = match self.rate_limit {
            Some(rate) => rate,
            None => RateLimit::conservative(),
        };
        let max_retries = match self.max_retries {
            Some(n) => n,
            None => DEFAULT_MAX_RETRIES,
        };
        Ok(
            ClientSettings {
                base_url,
                user_agent: self.user_agent,
                plus_token: self.plus_token,
                rate_limit,
                max_retries,
            },
        )
    }
}

impl Default for CrossrefBuilder {
    fn default() -> (r: Self)
        ensures
            r.spec_user_agent() is None,
            r.spec_token() is None,
            r.spec_base_url() is None,
            r.spec_rate_limit() is None,
            r.spec_max_retries() is None,
    {
        CrossrefBuilder::new()
    }
}

} // verus!
