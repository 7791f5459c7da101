//! Listing events and calendars.

use vstd::prelude::*;
use vstd::string::*;
use crate::client::encoding::{pairs_view, url_encode, url_encoded};
use crate::client::request::{
    bool_text, bool_to_string, concat3, opt_param, push_opt_param, push_param, ApiRequest,
};
use crate::utils::text::{decimal, u64_to_decimal};

verus! {

/// Parameters of an event listing.
pub struct ListEventsParams {
    pub calendar_id: String,
    pub time_min: Option<String>,
    pub time_max: Option<String>,
    pub max_results: u32,
    /// Expand recurring events into single instances.
    pub single_events: bool,
    pub order_by: Option<String>,
    pub page_token: Option<String>,
    pub sync_token: Option<String>,
}

impl Default for ListEventsParams {
    fn default() -> (p: Self)
        ensures
            p.calendar_id@ == "primary"@,
            p.time_min is None,
            p.time_max is None,
            p.max_results == 20,
            p.single_events,
            p.order_by matches Some(o) && o@ == "startTime"@,
            p.page_token is None,
            p.sync_token is None,
    {
        ListEventsParams {
            calendar_id: String::from_str("primary"),
            time_min: None,
            time_max: None,
            max_results: 20,
            single_events: true,
            order_by: Some(String::from_str("startTime")),
            page_token: None,
            sync_token: None,
        }
    }
}

/// The query of an event listing. A sync token excludes the time bounds, the
/// page token and the ordering; the ordering applies to expanded events only.
pub open spec fn list_events_params(p: ListEventsParams) -> Seq<(Seq<char>, Seq<char>)> {
    let base = seq![
        ("maxResults"@, decimal(p.max_results as nat)),
        ("singleEvents"@, bool_text(p.single_events)),
    ];
    match p.sync_token {
        Some(sync) => base.push(("syncToken"@, sync@)),
        None => base + opt_param("timeMin"@, p.time_min) + opt_param("timeMax"@, p.time_max)
            + opt_param("pageToken"@, p.page_token) + if p.single_events {
            opt_param("orderBy"@, p.order_by)
        } else {
            Seq::empty()
        },
    }
}

/// The path of a calendar's events.
pub open spec fn events_path(calendar_id: Seq<char>) -> Seq<char> {
    "/calendars/"@ + url_encoded(calendar_id) + "/events"@
}

/// The request that lists events.
pub fn list_events_request(params: &ListEventsParams) -> (r: ApiRequest)
    ensures
        r.path@ == events_path(params.calendar_id@),
        r.params() == list_events_params(*params),
{
    let mut query: Vec<(String, String)> = Vec::new();
    push_param(&mut query, "maxResults", u64_to_decimal(params.max_results as u64));
    push_param(&mut query, "singleEvents", bool_to_string(params.single_events));
    let ghost base = pairs_view(query@);
    match &params.sync_token {
        Some(sync) => {
            push_param(&mut query, "syncToken", sync.clone());
        },
        None => {
            push_opt_param(&mut query, "timeMin", &params.time_min);
            push_opt_param(&mut query, "timeMax", &params.time_max);
            push_opt_param(&mut query, "pageToken", &params.page_token);
            let ghost before_order = pairs_view(query@);
            if params.single_events {
                push_opt_param(&mut query, "orderBy", &params.order_by);
            } else {
                assert(pairs_view(query@) =~= before_order + Seq::<(Seq<char>, Seq<char>)>::empty());
            }
        },
    }
    let encoded = url_encode(params.calendar_id.as_str());
    let path = concat3("/calendars/", encoded.as_str(), "/events");
    let r = ApiRequest { path, query };
    assert(r.params() =~= list_events_params(*params));
    r
}

/// The request that lists the user's calendars.
pub fn list_calendars_request() -> (r: ApiRequest)
    ensures
        r.path@ == "/users/me/calendarList"@,
        r.params() == Seq::<(Seq<char>, Seq<char>)>::empty(),
{
    ApiRequest::plain(String::from_str("/users/me/calendarList"))
}


/// The names of the parameters of a query.
pub open spec fn param_names(params: Seq<(Seq<char>, Seq<char>)>) -> Seq<Seq<char>> {
    params.map_values(|p: (Seq<char>, Seq<char>)| p.0)
}

/// Without a sync token, every bound and token that is given is sent: the
/// time window's both ends, the page token, and the ordering of expanded
/// events; the page size and the expansion flag are always sent.
pub proof fn window_params_are_sent(p: ListEventsParams)
    requires
        p.sync_token is None,
    ensures
        list_events_params(p).contains(("maxResults"@, decimal(p.max_results as nat))),
        list_events_params(p).contains(("singleEvents"@, bool_text(p.single_events))),
        p.time_min matches Some(t) ==> list_events_params(p).contains(("timeMin"@, t@)),
        p.time_max matches Some(t) ==> list_events_params(p).contains(("timeMax"@, t@)),
        p.page_token matches Some(t) ==> list_events_params(p).contains(("pageToken"@, t@)),
        p.single_events && p.order_by is Some ==> list_events_params(p).contains(
            ("orderBy"@, p.order_by->0@),
        ),
{
    let base = seq![
        ("maxResults"@, decimal(p.max_results as nat)),
        ("singleEvents"@, bool_text(p.single_events)),
    ];
    let a = opt_param("timeMin"@, p.time_min);
    let b = opt_param("timeMax"@, p.time_max);
    let c = opt_param("pageToken"@, p.page_token);
    let d = if p.single_events { opt_param("orderBy"@, p.order_by) } else { Seq::empty() };
    let s = list_events_params(p);
    assert(s == base + a + b + c + d);
    assert(s[0] == base[0]);
    assert(s[1] == base[1]);
    if p.time_min is Some {
        assert(s[2] == a[0]);
    }
    if p.time_max is Some {
        assert(s[(2 + a.len()) as int] == b[0]);
    }
    if p.page_token is Some {
        assert(s[(2 + a.len() + b.len()) as int] == c[0]);
    }
    if p.single_events && p.order_by is Some {
        assert(s[(2 + a.len() + b.len() + c.len()) as int] == d[0]);
    }
}

/// A listing with a sync token sends neither time bounds, nor a page token,
/// nor an ordering: the API accepts them only without one.
pub proof fn sync_token_excludes_filters(p: ListEventsParams)
    requires
        p.sync_token is Some,
    ensures
        !param_names(list_events_params(p)).contains("timeMin"@),
        !param_names(list_events_params(p)).contains("timeMax"@),
        !param_names(list_events_params(p)).contains("pageToken"@),
        !param_names(list_events_params(p)).contains("orderBy"@),
        param_names(list_events_params(p)).contains("syncToken"@),
{
    reveal_strlit("maxResults");
    reveal_strlit("singleEvents");
    reveal_strlit("syncToken");
    reveal_strlit("timeMin");
    reveal_strlit("timeMax");
    reveal_strlit("pageToken");
    reveal_strlit("orderBy");
    let names = param_names(list_events_params(p));
    assert(names =~= seq!["maxResults"@, "singleEvents"@, "syncToken"@]);
    assert(names[2] == "syncToken"@);
    assert("maxResults"@[0] != "timeMin"@[0]);
    assert("singleEvents"@[0] != "timeMin"@[0]);
    assert("syncToken"@[1] != "timeMin"@[1]);
    assert("maxResults"@[0] != "pageToken"@[0]);
    assert("singleEvents"@[0] != "pageToken"@[0]);
    assert("syncToken"@[0] != "pageToken"@[0]);
    assert("maxResults"@[0] != "orderBy"@[0]);
    assert("singleEvents"@[0] != "orderBy"@[0]);
    assert("syncToken"@[0] != "orderBy"@[0]);
    assert("maxResults"@.len() != "timeMax"@.len() || "maxResults"@[0] != "timeMax"@[0]);
    assert("singleEvents"@[0] != "timeMax"@[0]);
    assert("syncToken"@[1] != "timeMax"@[1]);
}

} // verus!
