//! Per-service client settings and the URLs that requests go to.

use vstd::prelude::*;
use vstd::string::*;
use crate::client::encoding::{form_query, form_urlencode, pairs_view};
use crate::client::request::{concat2, concat3, ApiRequest};
use crate::utils::text::{chars_of, contains, contains_from, starts_with, starts_with_from};

verus! {

/// Base URL of the Gmail API.
pub const GMAIL: &'static str = "https://gmail.googleapis.com/gmail/v1";
/// Base URL of the Drive API.
pub const DRIVE: &'static str = "https://www.googleapis.com/drive/v3";
/// Base URL of the Calendar API.
pub const CALENDAR: &'static str = "https://www.googleapis.com/calendar/v3";
/// Base URL of the Docs API.
pub const DOCS: &'static str = "https://docs.googleapis.com/v1";
/// Base URL of the Sheets API.
pub const SHEETS: &'static str = "https://sheets.googleapis.com/v4";
/// Base URL of the Slides API.
pub const SLIDES: &'static str = "https://slides.googleapis.com/v1";
/// Base URL of the Tasks API.
pub const TASKS: &'static str = "https://tasks.googleapis.com/tasks/v1";
/// Base URL of the Chat API.
pub const CHAT: &'static str = "https://chat.googleapis.com/v1";
/// Base URL of the People API.
pub const CONTACTS: &'static str = "https://people.googleapis.com/v1";
/// Base URL of the Cloud Identity API.
pub const GROUPS: &'static str = "https://cloudidentity.googleapis.com/v1";
/// Base URL of the Admin Directory API.
pub const ADMIN: &'static str = "https://admin.googleapis.com/admin/directory/v1";
/// Base URL of the Admin Reports API.
pub const ADMIN_REPORTS: &'static str = "https://admin.googleapis.com/admin/reports/v1";

/// Which rate-limit budget a client draws on.
#[derive(Clone, Copy, PartialEq, Eq, Structural, Debug)]
pub enum RateLimit {
    Gmail,
    Drive,
    Calendar,
    Docs,
    Tasks,
}

/// How eagerly failed requests are retried.
#[derive(Clone, Copy, PartialEq, Eq, Structural, Debug)]
pub enum RetryPolicy {
    Standard,
    Conservative,
    Aggressive,
}

/// The settings of a client for one Google API: where its requests go, which
/// rate limit and retry policy apply, and whether requests are only shown.
pub struct ApiClient {
    pub base_url: String,
    pub rate_limiter: Option<RateLimit>,
    pub retry_config: RetryPolicy,
    pub dry_run: bool,
}

impl Clone for ApiClient {
    /// A client with the same settings.
    fn clone(&self) -> (c: Self)
        ensures
            c.base_url@ == self.base_url@,
            c.rate_limiter == self.rate_limiter,
            c.retry_config == self.retry_config,
            c.dry_run == self.dry_run,
    {
        ApiClient {
            base_url: self.base_url.clone(),
            rate_limiter: self.rate_limiter,
            retry_config: self.retry_config,
            dry_run: self.dry_run,
        }
    }
}

impl ApiClient {
    /// A client with no base URL, no rate limit, standard retries.
    pub fn new() -> (c: Self)
        ensures
            c.base_url@ == Seq::<char>::empty(),
            c.rate_limiter is None,
            c.retry_config == RetryPolicy::Standard,
            !c.dry_run,
    {
        ApiClient {
            base_url: String::new(),
            rate_limiter: None,
            retry_config: RetryPolicy::Standard,
            dry_run: false,
        }
    }

    /// Sets the base URL for this client.
    pub fn with_base_url(self, url: &str) -> (c: Self)
        ensures
            c.base_url@ == url@,
            c.rate_limiter == self.rate_limiter,
            c.retry_config == self.retry_config,
            c.dry_run == self.dry_run,
    {
        let mut c = self;
        c.base_url = String::from_str(url);
        c
    }

    /// Sets the rate limiter.
    pub fn with_rate_limiter(self, limiter: RateLimit) -> (c: Self)
        ensures
            c == (ApiClient { rate_limiter: Some(limiter), ..self }),
    {
        let mut c = self;
        c.rate_limiter = Some(limiter);
        c
    }

    /// Sets the retry policy.
    pub fn with_retry_config(self, config: RetryPolicy) -> (c: Self)
        ensures
            c == (ApiClient { retry_config: config, ..self }),
    {
        let mut c = self;
        c.retry_config = config;
        c
    }

    /// Enables dry-run mode: requests are shown, not sent.
    pub fn with_dry_run(self, dry_run: bool) -> (c: Self)
        ensures
            c == (ApiClient { dry_run, ..self }),
    {
        let mut c = self;
        c.dry_run = dry_run;
        c
    }

    /// The settings of a client for one service.
    pub open spec fn is_service(&self, url: Seq<char>, limit: RateLimit, retry: RetryPolicy) -> bool {
        &&& self.base_url@ == url
        &&& self.rate_limiter == Some(limit)
        &&& self.retry_config == retry
        &&& !self.dry_run
    }

    fn service(url: &str, limit: RateLimit, retry: RetryPolicy) -> (c: Self)
        ensures
            c.is_service(url@, limit, retry),
    {
        ApiClient::new().with_base_url(url).with_rate_limiter(limit).with_retry_config(retry)
    }

    /// A Gmail client.
    pub fn gmail() -> (c: Self)
        ensures
            c.is_service(GMAIL@, RateLimit::Gmail, RetryPolicy::Conservative),
    {
        Self::service(GMAIL, RateLimit::Gmail, RetryPolicy::Conservative)
    }

    /// A Drive client.
    pub fn drive() -> (c: Self)
        ensures
            c.is_service(DRIVE@, RateLimit::Drive, RetryPolicy::Conservative),
    {
        Self::service(DRIVE, RateLimit::Drive, RetryPolicy::Conservative)
    }

    /// A Calendar client.
    pub fn calendar() -> (c: Self)
        ensures
            c.is_service(CALENDAR@, RateLimit::Calendar, RetryPolicy::Standard),
    {
        Self::service(CALENDAR, RateLimit::Calendar, RetryPolicy::Standard)
    }

    /// A Docs client.
    pub fn docs() -> (c: Self)
        ensures
            c.is_service(DOCS@, RateLimit::Docs, RetryPolicy::Aggressive),
    {
        Self::service(DOCS, RateLimit::Docs, RetryPolicy::Aggressive)
    }

    /// A Sheets client.
    pub fn sheets() -> (c: Self)
        ensures
            c.is_service(SHEETS@, RateLimit::Docs, RetryPolicy::Aggressive),
    {
        Self::service(SHEETS, RateLimit::Docs, RetryPolicy::Aggressive)
    }

    /// A Slides client.
    pub fn slides() -> (c: Self)
        ensures
            c.is_service(SLIDES@, RateLimit::Docs, RetryPolicy::Aggressive),
    {
        Self::service(SLIDES, RateLimit::Docs, RetryPolicy::Aggressive)
    }

    /// A Tasks client.
    pub fn tasks() -> (c: Self)
        ensures
            c.is_service(TASKS@, RateLimit::Tasks, RetryPolicy::Standard),
    {
        Self::service(TASKS, RateLimit::Tasks, RetryPolicy::Standard)
    }

    /// A Google Chat client.
    pub fn chat() -> (c: Self)
        ensures
            c.is_service(CHAT@, RateLimit::Tasks, RetryPolicy::Standard),
    {
        Self::service(CHAT, RateLimit::Tasks, RetryPolicy::Standard)
    }

    /// A People API client.
    pub fn contacts() -> (c: Self)
        ensures
            c.is_service(CONTACTS@, RateLimit::Tasks, RetryPolicy::Standard),
    {
        Self::service(CONTACTS, RateLimit::Tasks, RetryPolicy::Standard)
    }

    /// A Cloud Identity client.
    pub fn groups() -> (c: Self)
        ensures
            c.is_service(GROUPS@, RateLimit::Tasks, RetryPolicy::Standard),
    {
        Self::service(GROUPS, RateLimit::Tasks, RetryPolicy::Standard)
    }

    /// An Admin Directory client.
    pub fn admin() -> (c: Self)
        ensures
            c.is_service(ADMIN@, RateLimit::Tasks, RetryPolicy::Standard),
    {
        Self::service(ADMIN, RateLimit::Tasks, RetryPolicy::Standard)
    }

    /// An Admin Reports client.
    pub fn admin_reports() -> (c: Self)
        ensures
            c.is_service(ADMIN_REPORTS@, RateLimit::Tasks, RetryPolicy::Standard),
    {
        Self::service(ADMIN_REPORTS, RateLimit::Tasks, RetryPolicy::Standard)
    }

    /// The full URL of `path`: a path that starts with `http` is a URL
    /// already; any other is appended to the base URL.
    pub open spec fn url_of(&self, path: Seq<char>) -> Seq<char> {
        if starts_with(path, "http"@) {
            path
        } else {
            self.base_url@ + path
        }
    }

    /// The URL of `path` with the query `params`: without parameters the URL
    /// of the path, otherwise that URL, `?` (or `&` where the URL holds a `?`
    /// already) and the form-encoded query.
    pub open spec fn query_url_of(&self, path: Seq<char>, params: Seq<(Seq<char>, Seq<char>)>) -> Seq<char> {
        let q = form_query(params);
        let base = self.url_of(path);
        if q.len() == 0 {
            base
        } else if contains(base, "?"@) {
            base + "&"@ + q
        } else {
            base + "?"@ + q
        }
    }

    /// Builds the full URL from a path.
    pub fn build_url(&self, path: &str) -> (u: String)
        ensures
            u@ == self.url_of(path@),
    {
        let p = chars_of(path);
        let http = chars_of("http");
        assert(p@.skip(0) =~= p@);
        if starts_with_from(&p, 0, &http) {
            String::from_str(path)
        } else {
            concat2(self.base_url.as_str(), path)
        }
    }

    /// The URL of a GET request with query parameters.
    pub fn url_with_query(&self, path: &str, query: &Vec<(String, String)>) -> (u: String)
        ensures
            u@ == self.query_url_of(path@, pairs_view(query@)),
    {
        let encoded = form_urlencode(query);
        let query_string = encoded.unwrap();
        let base_url = self.build_url(path);
        if query_string.as_str().is_empty() {
            base_url
        } else {
            let b = chars_of(base_url.as_str());
            let question = chars_of("?");
            assert(b@.skip(0) =~= b@);
            let separator = if contains_from(&b, 0, &question) { "&" } else { "?" };
            concat3(base_url.as_str(), separator, query_string.as_str())
        }
    }

    /// The URL that a request goes to.
    pub fn request_url(&self, request: &ApiRequest) -> (u: String)
        ensures
            u@ == self.query_url_of(request.path@, request.params()),
    {
        self.url_with_query(request.path.as_str(), &request.query)
    }
}


/// Query strings: a non-empty list of parameters never serializes to an
/// empty string, and an empty one does.
pub proof fn form_query_empty(params: Seq<(Seq<char>, Seq<char>)>)
    ensures
        form_query(params).len() == 0 <==> params.len() == 0,
{
    if params.len() > 1 {
        assert(form_query(params) == form_query(params.drop_last()).push('&') + crate::client::encoding::form_pair(params.last()));
        assert(form_query(params).len() > 0);
    } else if params.len() == 1 {
        assert(crate::client::encoding::form_encoded(params[0].0).push('=').len() > 0);
    }
}

/// A request without query parameters goes to the URL of its path, and a
/// request with some always carries a query string after `?` or `&`.
pub proof fn query_url_law(client: ApiClient, path: Seq<char>, params: Seq<(Seq<char>, Seq<char>)>)
    ensures
        params.len() == 0 ==> client.query_url_of(path, params) == client.url_of(path),
        params.len() > 0 ==> client.query_url_of(path, params).len() > client.url_of(path).len(),
{
    form_query_empty(params);
}

/// A path that is a full URL is not joined to the base URL.
pub proof fn absolute_path_kept(client: ApiClient, path: Seq<char>)
    requires
        starts_with(path, "http"@),
    ensures
        client.url_of(path) == path,
{
}


/// An error answer of an API.
pub struct ApiError {
    /// The HTTP status code.
    pub code: u16,
    pub message: String,
    pub domain: String,
    /// Seconds to wait before retrying, where the server says so.
    pub retry_after: Option<u64>,
}

/// The error for a failed response: its status, the `error.message` of its
/// body (`Unknown error` where the body has none), and the server's wait.
pub fn api_error(code: u16, message: Option<String>, retry_after: Option<u64>) -> (e: ApiError)
    ensures
        e.code == code,
        e.message@ == match message {
            Some(m) => m@,
            None => "Unknown error"@,
        },
        e.domain@ == "api"@,
        e.retry_after == retry_after,
{
    let message = match message {
        Some(m) => m,
        None => String::from_str("Unknown error"),
    };
    ApiError { code, message, domain: String::from_str("api"), retry_after }
}

} // verus!
