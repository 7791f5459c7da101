//! Listing messages, and summing up their metadata.

use vstd::prelude::*;
use vstd::string::*;
use crate::client::encoding::pairs_view;
use crate::client::request::{concat3, opt_param, push_opt_param, push_param, ApiRequest};
use crate::utils::text::{clone_opt_string, decimal, opt_view, u64_to_decimal};

verus! {

/// Parameters of a message listing.
pub struct ListParams {
    pub query: Option<String>,
    pub max_results: u32,
    pub label_ids: Option<Vec<String>>,
    pub page_token: Option<String>,
}

impl Default for ListParams {
    fn default() -> (p: Self)
        ensures
            p.query is None,
            p.max_results == 20,
            p.label_ids is None,
            p.page_token is None,
    {
        ListParams { query: None, max_results: 20, label_ids: None, page_token: None }
    }
}

/// One `labelIds` parameter per label.
pub open spec fn label_params(labels: Option<Vec<String>>) -> Seq<(Seq<char>, Seq<char>)> {
    match labels {
        Some(v) => v@.map_values(|l: String| ("labelIds"@, l@)),
        None => Seq::empty(),
    }
}

/// The query of a message listing.
pub open spec fn list_messages_params(p: ListParams) -> Seq<(Seq<char>, Seq<char>)> {
    seq![("maxResults"@, decimal(p.max_results as nat))] + opt_param("q"@, p.query) + opt_param(
        "pageToken"@,
        p.page_token,
    ) + label_params(p.label_ids)
}

/// The request that lists the user's messages.
pub fn list_messages_request(params: &ListParams) -> (r: ApiRequest)
    ensures
        r.path@ == "/users/me/messages"@,
        r.params() == list_messages_params(*params),
{
    let mut q: Vec<(String, String)> = Vec::new();
    push_param(&mut q, "maxResults", u64_to_decimal(params.max_results as u64));
    push_opt_param(&mut q, "q", &params.query);
    push_opt_param(&mut q, "pageToken", &params.page_token);
    let ghost base = pairs_view(q@);
    match &params.label_ids {
        Some(labels) => {
            for i in 0..labels.len()
                invariant
                    pairs_view(q@) == base + labels@.take(i as int).map_values(|l: String| ("labelIds"@, l@)),
            {
                push_param(&mut q, "labelIds", labels[i].clone());
                assert(labels@.take(i + 1).map_values(|l: String| ("labelIds"@, l@)) =~= labels@.take(i as int).map_values(
                    |l: String| ("labelIds"@, l@),
                ).push(("labelIds"@, labels@[i as int]@)));
            }
            assert(labels@.take(labels@.len() as int) =~= labels@);
        },
        None => {
            assert(pairs_view(q@) =~= base + label_params(params.label_ids));
        },
    }
    let r = ApiRequest { path: String::from_str("/users/me/messages"), query: q };
    assert(r.params() =~= list_messages_params(*params));
    r
}

/// The batch path that reads a message's Subject, From and Date headers.
pub open spec fn metadata_path(id: Seq<char>) -> Seq<char> {
    "/gmail/v1/users/me/messages/"@ + id
        + "?format=metadata&metadataHeaders=Subject&metadataHeaders=From&metadataHeaders=Date"@
}

pub fn metadata_request_path(id: &str) -> (p: String)
    ensures
        p@ == metadata_path(id@),
{
    concat3(
        "/gmail/v1/users/me/messages/",
        id,
        "?format=metadata&metadataHeaders=Subject&metadataHeaders=From&metadataHeaders=Date",
    )
}

/// A header of a message's payload; a name or value that is missing or not a
/// string is `None`.
pub struct MetadataHeader {
    pub name: Option<String>,
    pub value: Option<String>,
}

/// One answer of a metadata batch: the id the request was sent under, and
/// what the body holds (a missing or non-string field is `None`; `headers` is
/// `None` where the body has no header list).
pub struct MetadataResponse {
    pub request_id: String,
    pub id: Option<String>,
    pub thread_id: Option<String>,
    pub headers: Option<Vec<MetadataHeader>>,
    pub snippet: Option<String>,
}

/// A message with the metadata an agent reads first.
pub struct MessageSummary {
    pub id: String,
    pub thread_id: String,
    pub subject: Option<String>,
    pub from: Option<String>,
    pub date: Option<String>,
    pub snippet: Option<String>,
}

/// The value of the first header named `name`: `None` where there is no such
/// header or it has no string value.
pub open spec fn header_value(headers: Seq<MetadataHeader>, name: Seq<char>) -> Option<Seq<char>>
    decreases headers.len(),
{
    if headers.len() == 0 {
        None
    } else if opt_view(headers[0].name) == Some(name) {
        opt_view(headers[0].value)
    } else {
        header_value(headers.drop_first(), name)
    }
}

pub open spec fn header_of(r: MetadataResponse, name: Seq<char>) -> Option<Seq<char>> {
    match r.headers {
        Some(h) => header_value(h@, name),
        None => None,
    }
}

/// The summary of an answer: its own id (the request's where it has none),
/// its thread (the message id where it has none), three headers and the snippet.
pub open spec fn is_summary_of(s: MessageSummary, r: MetadataResponse) -> bool {
    let id = match r.id {
        Some(i) => i@,
        None => r.request_id@,
    };
    &&& s.id@ == id
    &&& s.thread_id@ == match r.thread_id {
        Some(t) => t@,
        None => id,
    }
    &&& opt_view(s.subject) == header_of(r, "Subject"@)
    &&& opt_view(s.from) == header_of(r, "From"@)
    &&& opt_view(s.date) == header_of(r, "Date"@)
    &&& s.snippet == r.snippet
}

fn find_header(headers: &Option<Vec<MetadataHeader>>, name: &str) -> (r: Option<String>)
    ensures
        opt_view(r) == match *headers {
            Some(h) => header_value(h@, name@),
            None => None,
        },
{
    match headers {
        Some(h) => {
            let wanted = String::from_str(name);
            let mut i: usize = 0;
            assert(h@.skip(0) =~= h@);
            while i < h.len()
                invariant
                    i <= h@.len(),
                    wanted@ == name@,
                    *headers == Some(*h),
                    header_value(h@, name@) == header_value(h@.skip(i as int), name@),
                decreases h@.len() - i,
            {
                assert(h@.skip(i as int).drop_first() =~= h@.skip(i + 1));
                assert(h@.skip(i as int)[0] == h@[i as int]);
                let found = match &h[i].name {
                    Some(n) => n.eq(&wanted),
                    None => false,
                };
                if found {
                    assert(opt_view(h@[i as int].name) == Some(name@));
                    assert(header_value(h@.skip(i as int), name@) == opt_view(h@[i as int].value));
                    let v = clone_opt_string(&h[i].value);
                    assert(opt_view(v) == header_value(h@, name@));
                    return v;
                }
                i = i + 1;
            }
            None
        },
        None => None,
    }
}

/// Sums up one answer of a metadata batch.
pub fn summarize_message(resp: &MetadataResponse) -> (s: MessageSummary)
    ensures
        is_summary_of(s, *resp),
{
    let id = match &resp.id {
        Some(i) => i.clone(),
        None => resp.request_id.clone(),
    };
    let thread_id = match &resp.thread_id {
        Some(t) => t.clone(),
        None => id.clone(),
    };
    MessageSummary {
        id,
        thread_id,
        subject: find_header(&resp.headers, "Subject"),
        from: find_header(&resp.headers, "From"),
        date: find_header(&resp.headers, "Date"),
        snippet: clone_opt_string(&resp.snippet),
    }
}

/// Sums up the answers of a metadata batch, in order.
pub fn summarize_messages(responses: &Vec<MetadataResponse>) -> (r: Vec<MessageSummary>)
    ensures
        r@.len() == responses@.len(),
        forall|i: int| 0 <= i < r@.len() ==> is_summary_of(#[trigger] r@[i], responses@[i]),
{
    let mut r: Vec<MessageSummary> = Vec::new();
    for i in 0..responses.len()
        invariant
            r@.len() == i,
            forall|j: int| 0 <= j < i ==> is_summary_of(#[trigger] r@[j], responses@[j]),
    {
        r.push(summarize_message(&responses[i]));
    }
    r
}

} // verus!
