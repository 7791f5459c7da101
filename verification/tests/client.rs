use workspace_cli::cli::label_changes;
use workspace_cli::client::api_client::{ApiClient, RateLimit, RetryPolicy, CALENDAR, GMAIL};
use workspace_cli::commands::calendar::create::create_event_path;
use workspace_cli::client::request::ApiRequest;

#[test]
fn service_clients() {
    let g = ApiClient::gmail();
    assert_eq!(g.base_url, GMAIL);
    assert_eq!(g.rate_limiter, Some(RateLimit::Gmail));
    assert_eq!(g.retry_config, RetryPolicy::Conservative);
    assert!(!g.dry_run);
    let c = ApiClient::calendar().with_dry_run(true);
    assert_eq!(c.base_url, CALENDAR);
    assert!(c.dry_run);
    assert_eq!(ApiClient::sheets().rate_limiter, Some(RateLimit::Docs));
    assert_eq!(ApiClient::docs().retry_config, RetryPolicy::Aggressive);
    assert_eq!(ApiClient::admin_reports().base_url, "https://admin.googleapis.com/admin/reports/v1");
    let n = ApiClient::new();
    assert_eq!(n.base_url, "");
    assert!(n.rate_limiter.is_none());
    assert_eq!(n.with_retry_config(RetryPolicy::Aggressive).with_rate_limiter(RateLimit::Tasks).rate_limiter, Some(RateLimit::Tasks));
}

#[test]
fn build_url_joins_or_keeps() {
    let c = ApiClient::new().with_base_url("https://api.example.com/v1");
    assert_eq!(c.build_url("/items"), "https://api.example.com/v1/items");
    assert_eq!(c.build_url("https://other.example.com/x"), "https://other.example.com/x");
}

#[test]
fn query_urls() {
    let c = ApiClient::new().with_base_url("https://api.example.com");
    let q = vec![("q".to_string(), "a b&c".to_string()), ("n".to_string(), "*-._~é".to_string())];
    assert_eq!(c.url_with_query("/list", &q), "https://api.example.com/list?q=a+b%26c&n=*-._%7E%C3%A9");
    assert_eq!(c.url_with_query("/list?x=1", &q), "https://api.example.com/list?x=1&q=a+b%26c&n=*-._%7E%C3%A9");
    assert_eq!(c.url_with_query("/list", &Vec::new()), "https://api.example.com/list");
    let r = ApiRequest::plain("/p".to_string());
    assert_eq!(c.request_url(&r), "https://api.example.com/p");
}

#[test]
fn encoders() {
    assert_eq!(create_event_path("a b/~*"), "/calendars/a%20b%2F~%2A/events?conferenceDataVersion=1&sendUpdates=all");
    assert_eq!(create_event_path("été"), "/calendars/%C3%A9t%C3%A9/events?conferenceDataVersion=1&sendUpdates=all");
    let c = ApiClient::new().with_base_url("h");
    let q = vec![("".to_string(), "".to_string()), ("k".to_string(), "v".to_string())];
    assert_eq!(c.url_with_query("/p", &q), "h/p?=&k=v");
}

#[test]
fn label_changes_from_flags() {
    let (add, remove) = label_changes(
        Some("Work, Later ,".to_string()),
        None,
        true,
        false,
        true,
        false,
        true,
    );
    assert_eq!(add, vec!["Work".to_string(), "Later".to_string(), String::new(), "STARRED".to_string()]);
    assert_eq!(remove, vec!["UNREAD".to_string(), "INBOX".to_string()]);
}

#[test]
fn label_changes_without_options() {
    let (add, remove) = label_changes(None, Some(" X ".to_string()), false, true, false, true, false);
    assert_eq!(add, vec!["UNREAD".to_string()]);
    assert_eq!(remove, vec!["X".to_string(), "STARRED".to_string()]);
}

#[test]
fn client_clone_keeps_settings() {
    let c = ApiClient::drive().with_dry_run(true);
    let d = c.clone();
    assert_eq!(d.base_url, c.base_url);
    assert_eq!(d.rate_limiter, c.rate_limiter);
    assert_eq!(d.retry_config, c.retry_config);
    assert!(d.dry_run);
}
