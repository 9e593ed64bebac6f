//! HTTP: which answers are tried again, what a download gives, and how long to wait.
use vstd::prelude::*;
use vstd::string::*;

use crate::config::HttpConfig;
use crate::error::Error;
use crate::text::{clone_opt, opt_view};

verus! {

/// Why a text is no proxy URL; nothing where it is one.
pub uninterp spec fn proxy_problem_of(url: Seq<char>) -> Option<Seq<char>>;

/// Calls `reqwest::Proxy::all` and prints the error, if any. Which texts name a proxy is left
/// to that function: the outcome is named [`proxy_problem_of`].
#[verifier::external_body]
pub(crate) fn proxy_problem(url: &str) -> (r: Option<String>)
    ensures
        opt_view(r) == proxy_problem_of(url@),
{
    match reqwest::Proxy::all(url) {
        Ok(_) => None,
        Err(error) => Some(error.to_string()),
    }
}

/// How the program names itself to servers.
pub open spec fn user_agent_of(version: Seq<char>, repository: Seq<char>) -> Seq<char> {
    "cgx/"@ + version + " ("@ + repository + ")"@
}

/// How the program names itself to servers.
pub fn user_agent(version: &str, repository: &str) -> (r: String)
    ensures
        r@ == user_agent_of(version@, repository@),
{
    "cgx/".to_owned().concat(version).concat(" (").concat(repository).concat(")")
}

/// How often to try again and how long to wait in between. Times are in nanoseconds; each
/// wait is longer than the one before, with some jitter.
#[derive(Clone, Copy, Debug, PartialEq, Eq, Structural)]
pub struct Backoff {
    pub min_delay: u128,
    pub max_delay: u128,
    pub max_times: usize,
    pub jitter: bool,
}

/// The seconds allowed to establish a connection.
pub const CONNECT_TIMEOUT_SECS: u64 = 10;

/// The server asks to come back later, or is in trouble itself.
pub open spec fn status_is_retryable(status: u16) -> bool {
    status == 429 || 500 <= status < 600
}

/// The request was answered with what was asked for.
pub open spec fn status_is_success(status: u16) -> bool {
    200 <= status < 300
}

/// Whether a request was answered with what was asked for.
pub fn is_success(status: u16) -> (r: bool)
    ensures
        r == status_is_success(status),
{
    200 <= status && status < 300
}

/// How requests are tried again with these settings.
pub open spec fn backoff_of(config: HttpConfig) -> Backoff {
    Backoff {
        min_delay: config.backoff_base,
        max_delay: config.backoff_max,
        max_times: config.retries,
        jitter: true,
    }
}

/// How requests are tried again with these settings.
pub fn backoff(config: &HttpConfig) -> (r: Backoff)
    ensures
        r == backoff_of(*config),
{
    Backoff {
        min_delay: config.backoff_base,
        max_delay: config.backoff_max,
        max_times: config.retries,
        jitter: true,
    }
}

/// What a finished request means for a download.
#[derive(Clone, Debug, PartialEq, Eq)]
pub enum DownloadVerdict {
    /// The body is the file.
    Take,
    /// There is no such file.
    Missing,
    /// The request failed.
    Fail(Error),
}

/// The settings of a client whose proxy, if any, is one.
#[derive(Clone, Debug, PartialEq, Eq)]
pub struct HttpClient {
    pub config: HttpConfig,
}

/// The configuration has no proxy, or one that can be used.
pub open spec fn proxy_is_usable(config: HttpConfig) -> bool {
    match config.proxy {
        Some(proxy) => proxy_problem_of(proxy@) is None,
        None => true,
    }
}

/// A client with these settings is set up, or the proxy is at fault.
pub open spec fn sets_up(config: HttpConfig, r: Result<HttpClient, Error>) -> bool {
    &&& r is Ok == proxy_is_usable(config)
    &&& match r {
        Ok(client) => client.config == config,
        Err(e) => e matches Error::HttpClientBuild { message } && message@
            == "invalid proxy URL '"@ + config.proxy->Some_0@ + "': "@ + proxy_problem_of(
            config.proxy->Some_0@,
        )->Some_0,
    }
}

/// Whether an answer with that status can be used.
pub open spec fn classifies(status: u16, url: Seq<char>, r: Result<(), Error>) -> bool {
    &&& r is Err == status_is_retryable(status)
    &&& r matches Err(e) ==> (e matches Error::HttpRetryableStatus { url: u, status: s } && u@
        == url && s == status)
}

/// What that status means for a download.
pub open spec fn judges(status: u16, url: Seq<char>, r: DownloadVerdict) -> bool {
    &&& r is Missing == (status == 404)
    &&& r is Take == status_is_success(status)
    &&& r matches DownloadVerdict::Fail(e) ==> (e matches Error::HttpRetryableStatus {
        url: u,
        status: s,
    } && u@ == url && s == status)
}

impl HttpClient {
    /// A client with the given settings, or an error where the proxy is none.
    pub fn new(config: &HttpConfig) -> (r: Result<Self, Error>)
        ensures
            sets_up(*config, r),
    {
        if let Some(proxy) = &config.proxy {
            if let Some(problem) = proxy_problem(proxy.as_str()) {
                return Err(
                    Error::HttpClientBuild {
                        message: "invalid proxy URL '".to_owned().concat(proxy.as_str()).concat(
                            "': ",
                        ).concat(problem.as_str()),
                    },
                );
            }
        }
        Ok(
            HttpClient {
                config: HttpConfig {
                    timeout: config.timeout,
                    backoff_base: config.backoff_base,
                    backoff_max: config.backoff_max,
                    retries: config.retries,
                    proxy: clone_opt(&config.proxy),
                },
            },
        )
    }

    /// How requests are tried again.
    pub fn build_backoff(&self) -> (r: Backoff)
        ensures
            r == backoff_of(self.config),
    {
        backoff(&self.config)
    }

    /// Whether an answer can be used. Too many requests and trouble of the server are errors,
    /// and so are tried again; every other answer, 4xx included, is handed on.
    pub fn classify_response(status: u16, url: &str) -> (r: Result<(), Error>)
        ensures
            classifies(status, url@, r),
    {
        if status == 429 || (500 <= status && status < 600) {
            return Err(Error::HttpRetryableStatus { url: url.to_owned(), status });
        }
        Ok(())
    }

    /// What the status of an answer means for a download: 404 says that there is no such
    /// file, and everything but success is a failure.
    pub fn try_download(status: u16, url: &str) -> (r: DownloadVerdict)
        ensures
            judges(status, url@, r),
    {
        if status == 404 {
            DownloadVerdict::Missing
        } else if !is_success(status) {
            DownloadVerdict::Fail(Error::HttpRetryableStatus { url: url.to_owned(), status })
        } else {
            DownloadVerdict::Take
        }
    }

    /// Whether the error says that the server cannot be reached, as opposed to that it
    /// answered with a failure.
    pub fn is_connection_error(err: &Error) -> (r: bool)
        ensures
            r == unreachable_server(*err),
    {
        match err {
            Error::HttpRequest { failure, .. } => failure.connect || failure.timeout
                || failure.request,
            _ => false,
        }
    }
}

/// The error says that the server cannot be reached.
pub open spec fn unreachable_server(err: Error) -> bool {
    err matches Error::HttpRequest { failure, .. } && (failure.connect || failure.timeout
        || failure.request)
}

/// An answer that is tried again is never taken for a file, and never for the absence of one.
pub proof fn retried_answers_decide_nothing(status: u16)
    requires
        status_is_retryable(status),
    ensures
        status != 404,
        !status_is_success(status),
{
}

}
