//! Client configuration: the builder and the client it produces.

use vstd::prelude::*;
use vstd::string::*;
use std::path::PathBuf;
use std::time::Duration;
use crate::error::NcmError;
use crate::outside::{
    duration_from_secs, http_builder_build, http_builder_proxy, http_builder_timeout,
    http_error_text, http_proxy_all, new_http_builder, random_below,
};

verus! {

/// The user agents of which one is picked at random when none is configured.
pub open spec fn default_user_agents() -> Seq<Seq<char>> {
    seq![
        "Mozilla/5.0 (X11; Linux x86_64) AppleWebKit/537.36 (KHTML, like Gecko) Chrome/120.0.0.0 Safari/537.36"@,
        "Mozilla/5.0 (Macintosh; Intel Mac OS X 10_15_7) AppleWebKit/537.36 (KHTML, like Gecko) Chrome/120.0.0.0 Safari/537.36"@,
        "Mozilla/5.0 (Windows NT 10.0; Win64; x64) AppleWebKit/537.36 (KHTML, like Gecko) Chrome/120.0.0.0 Safari/537.36"@,
        "Mozilla/5.0 (iPhone; CPU iPhone OS 17_0 like Mac OS X) AppleWebKit/605.1.15 (KHTML, like Gecko) Version/17.0 Mobile/15E148 Safari/604.1"@,
    ]
}

/// The number of default user agents.
pub const USER_AGENT_COUNT: usize = 4;

/// The default user agent at position `i`.
pub fn default_user_agent(i: usize) -> (ua: &'static str)
    requires
        i < USER_AGENT_COUNT,
    ensures
        ua@ == default_user_agents()[i as int],
{
    if i == 0 {
        "Mozilla/5.0 (X11; Linux x86_64) AppleWebKit/537.36 (KHTML, like Gecko) Chrome/120.0.0.0 Safari/537.36"
    } else if i == 1 {
        "Mozilla/5.0 (Macintosh; Intel Mac OS X 10_15_7) AppleWebKit/537.36 (KHTML, like Gecko) Chrome/120.0.0.0 Safari/537.36"
    } else if i == 2 {
        "Mozilla/5.0 (Windows NT 10.0; Win64; x64) AppleWebKit/537.36 (KHTML, like Gecko) Chrome/120.0.0.0 Safari/537.36"
    } else {
        "Mozilla/5.0 (iPhone; CPU iPhone OS 17_0 like Mac OS X) AppleWebKit/605.1.15 (KHTML, like Gecko) Version/17.0 Mobile/15E148 Safari/604.1"
    }
}

/// A user agent picked at random among the defaults.
pub fn random_ua() -> (ua: String)
    ensures
        default_user_agents().contains(ua@),
{
    let i = random_below(USER_AGENT_COUNT);
    let ua = default_user_agent(i).to_owned();
    assert(default_user_agents()[i as int] == ua@);
    ua
}

/// The request timeout of a fresh builder, in seconds.
pub const DEFAULT_TIMEOUT_SECS: u64 = 30;

/// A configured proxy URL that `reqwest` refuses.
pub open spec fn proxy_refused(proxy: Option<Seq<char>>) -> bool {
    match proxy {
        Some(u) => !crate::outside::proxy_accepts(u),
        None => false,
    }
}

/// The HTTP client builder made from `base` with the configured timeout and,
/// when a proxy URL is configured, the proxy made of it.
pub open spec fn configured_http_builder(
    base: reqwest::ClientBuilder,
    timeout: Duration,
    proxy: Option<Seq<char>>,
) -> reqwest::ClientBuilder {
    let b = crate::outside::builder_with_timeout(base, timeout);
    match proxy {
        Some(u) => crate::outside::builder_with_proxy(b, crate::outside::proxy_for(u)),
        None => b,
    }
}

/// The configured builder is the fresh builder with the timeout applied, and
/// then the proxy only when one is configured.
pub proof fn law_configured_builder_applies_settings(
    base: reqwest::ClientBuilder,
    timeout: Duration,
    proxy: Option<Seq<char>>,
)
    ensures
        proxy is None ==> configured_http_builder(base, timeout, proxy)
            == crate::outside::builder_with_timeout(base, timeout),
        proxy matches Some(u) ==> configured_http_builder(base, timeout, proxy)
            == crate::outside::builder_with_proxy(
            crate::outside::builder_with_timeout(base, timeout),
            crate::outside::proxy_for(u),
        ),
{
}

/// Builder for `NcmClient`.
pub struct NcmClientBuilder {
    cookie_path: Option<PathBuf>,
    timeout: Duration,
    proxy: Option<String>,
    user_agent: Option<String>,
}

/// The settings a builder holds.
pub struct BuilderSettings {
    pub cookie_path: Option<PathBuf>,
    pub timeout: Duration,
    pub proxy: Option<Seq<char>>,
    pub user_agent: Option<Seq<char>>,
}

pub open spec fn view_opt_string(o: Option<String>) -> Option<Seq<char>> {
    match o {
        Some(s) => Some(s@),
        None => None,
    }
}

impl View for NcmClientBuilder {
    type V = BuilderSettings;

    closed spec fn view(&self) -> BuilderSettings {
        BuilderSettings {
            cookie_path: self.cookie_path,
            timeout: self.timeout,
            proxy: view_opt_string(self.proxy),
            user_agent: view_opt_string(self.user_agent),
        }
    }
}

impl Default for NcmClientBuilder {
    /// No cookie path, proxy or user agent, and a 30 second timeout.
    fn default() -> (b: Self)
        ensures
            b@.cookie_path is None,
            b@.timeout == crate::outside::seconds_duration(DEFAULT_TIMEOUT_SECS),
            b@.proxy is None,
            b@.user_agent is None,
    {
        NcmClientBuilder {
            cookie_path: None,
            timeout: duration_from_secs(DEFAULT_TIMEOUT_SECS),
            proxy: None,
            user_agent: None,
        }
    }
}

impl NcmClientBuilder {
    /// Path of the cookie persistence file.
    pub fn cookie_path(self, path: PathBuf) -> (b: Self)
        ensures
            b@.cookie_path == Some(path),
            b@.timeout == self@.timeout,
            b@.proxy == self@.proxy,
            b@.user_agent == self@.user_agent,
    {
        let mut b = self;
        b.cookie_path = Some(path);
        b
    }

    /// Request timeout (defaults to 30s).
    pub fn timeout(self, duration: Duration) -> (b: Self)
        ensures
            b@.cookie_path == self@.cookie_path,
            b@.timeout == duration,
            b@.proxy == self@.proxy,
            b@.user_agent == self@.user_agent,
    {
        let mut b = self;
        b.timeout = duration;
        b
    }

    /// HTTP proxy (http / https / socks5).
    pub fn proxy(self, proxy: &str) -> (b: Self)
        ensures
            b@.cookie_path == self@.cookie_path,
            b@.timeout == self@.timeout,
            b@.proxy == Some(proxy@),
            b@.user_agent == self@.user_agent,
    {
        let mut b = self;
        b.proxy = Some(proxy.to_owned());
        b
    }

    /// Custom User-Agent (a random one is chosen by default).
    pub fn user_agent(self, ua: &str) -> (b: Self)
        ensures
            b@.cookie_path == self@.cookie_path,
            b@.timeout == self@.timeout,
            b@.proxy == self@.proxy,
            b@.user_agent == Some(ua@),
    {
        let mut b = self;
        b.user_agent = Some(ua.to_owned());
        b
    }

    /// Builds the client. `fallback_cookie_path` is used when no cookie path
    /// was configured (the caller passes `cookies.json` in the working directory).
    ///
    /// An invalid proxy gives a `Session` error whose message starts with
    /// `invalid proxy: `; a failing HTTP client setup gives one that starts with
    /// `failed to build HTTP client: `.
    pub fn build(self, fallback_cookie_path: PathBuf) -> (r: Result<NcmClient, NcmError>)
        ensures
            r matches Ok(c) ==> {
                &&& c@.cookie_path == (match self@.cookie_path {
                    Some(p) => p,
                    None => fallback_cookie_path,
                })
                &&& (match self@.user_agent {
                    Some(ua) => c@.user_agent == ua,
                    None => default_user_agents().contains(c@.user_agent),
                })
            },
            r matches Ok(c) ==> exists|base: reqwest::ClientBuilder|
                crate::outside::fresh_http_builder(base) && c@.http_builder
                    == configured_http_builder(base, self@.timeout, self@.proxy),
            r matches Ok(c) ==> crate::outside::client_built_from(c@.http, c@.http_builder),
            r matches Ok(c) ==> exists|base: reqwest::ClientBuilder|
                {
                    &&& crate::outside::fresh_http_builder(base)
                    &&& match self@.proxy {
                        Some(u) => c@.http_builder == crate::outside::builder_with_proxy(
                            crate::outside::builder_with_timeout(base, self@.timeout),
                            crate::outside::proxy_for(u),
                        ),
                        None => c@.http_builder == crate::outside::builder_with_timeout(
                            base,
                            self@.timeout,
                        ),
                    }
                },
            proxy_refused(self@.proxy) ==> (r matches Err(e) && e is Session && exists|t: Seq<char>|
                e.message() == "invalid proxy: "@ + t),
            !proxy_refused(self@.proxy) ==> (r is Ok || (r matches Err(e) && e is Session && exists|
                t: Seq<char>,
            | e.message() == "failed to build HTTP client: "@ + t)),
    {
        let cookie_path = match self.cookie_path {
            Some(p) => p,
            None => fallback_cookie_path,
        };
        let base = new_http_builder();
        let ghost base_copy = base;
        let mut http_builder = http_builder_timeout(base, self.timeout);
        match &self.proxy {
            Some(proxy_url) => {
                match http_proxy_all(proxy_url.as_str()) {
                    Ok(proxy) => {
                        http_builder = http_builder_proxy(http_builder, proxy);
                    },
                    Err(e) => {
                        let detail = http_error_text(&e);
                        let msg = "invalid proxy: ".to_owned().concat(detail.as_str());
                        return Err(NcmError::Session(msg));
                    },
                }
            },
            None => {},
        }
        let ghost built_from = http_builder;
        assert(crate::outside::fresh_http_builder(base_copy) && built_from
            == configured_http_builder(base_copy, self@.timeout, self@.proxy));
        let http = match http_builder_build(http_builder) {
            Ok(h) => h,
            Err(e) => {
                let detail = http_error_text(&e);
                let msg = "failed to build HTTP client: ".to_owned().concat(detail.as_str());
                return Err(NcmError::Session(msg));
            },
        };
        let ua = match self.user_agent {
            Some(u) => u,
            None => random_ua(),
        };
        Ok(NcmClient { http, ua, cookie_path, http_builder: Ghost(built_from) })
    }
}

/// NetEase Cloud Music API client: the HTTP client, the user agent it sends,
/// and the location of the cookie file its session is kept in.
pub struct NcmClient {
    http: reqwest::Client,
    ua: String,
    cookie_path: PathBuf,
    http_builder: Ghost<reqwest::ClientBuilder>,
}

/// What a client holds, as plain values.
pub struct ClientSettings {
    pub http: reqwest::Client,
    /// The builder the HTTP client was built from.
    pub http_builder: reqwest::ClientBuilder,
    pub user_agent: Seq<char>,
    pub cookie_path: PathBuf,
}

impl View for NcmClient {
    type V = ClientSettings;

    closed spec fn view(&self) -> ClientSettings {
        ClientSettings {
            http: self.http,
            http_builder: self.http_builder@,
            user_agent: self.ua@, cookie_path: self.cookie_path }
    }
}

impl NcmClient {
    /// A builder with the default settings.
    pub fn builder() -> (b: NcmClientBuilder)
        ensures
            b@.cookie_path is None,
            b@.timeout == crate::outside::seconds_duration(DEFAULT_TIMEOUT_SECS),
            b@.proxy is None,
            b@.user_agent is None,
    {
        NcmClientBuilder::default()
    }

    /// The user agent this client sends.
    pub fn user_agent(&self) -> (ua: &str)
        ensures
            ua@ == self@.user_agent,
    {
        self.ua.as_str()
    }

    /// Where this client's cookies are kept.
    pub fn cookie_path(&self) -> (p: &PathBuf)
        ensures
            *p == self@.cookie_path,
    {
        &self.cookie_path
    }

    /// The underlying HTTP client.
    pub fn http(&self) -> (h: &reqwest::Client)
        ensures
            *h == self@.http,
    {
        &self.http
    }
}

} // verus!
