//! Listing, reading and sending Chat messages.

use vstd::prelude::*;
use vstd::string::*;
use crate::client::request::{concat2, concat3, opt_param, push_opt_param, push_param, ApiRequest};
use crate::utils::text::{chars_of, decimal, starts_with, starts_with_from, u64_to_decimal};
use super::types::{CreateMessageRequest, Thread};

verus! {

/// Parameters of a message listing.
pub struct ListMessagesParams {
    pub space_name: String,
    pub page_size: u32,
    pub page_token: Option<String>,
    pub order_by: Option<String>,
    pub filter: Option<String>,
}

impl ListMessagesParams {
    /// A listing of a space's messages, 25 per page.
    pub fn new(space_name: String) -> (p: Self)
        ensures
            p.space_name == space_name,
            p.page_size == 25,
            p.page_token is None,
            p.order_by is None,
            p.filter is None,
    {
        ListMessagesParams { space_name, page_size: 25, page_token: None, order_by: None, filter: None }
    }
}

/// The resource name of a space: as given where it starts with `spaces/`,
/// otherwise with that prefix added.
pub open spec fn space_resource(name: Seq<char>) -> Seq<char> {
    if starts_with(name, "spaces/"@) {
        name
    } else {
        "spaces/"@ + name
    }
}

/// The resource name of a space.
pub fn space_resource_name(name: &str) -> (r: String)
    ensures
        r@ == space_resource(name@),
{
    let v = chars_of(name);
    let prefix = chars_of("spaces/");
    assert(v@.skip(0) =~= v@);
    if starts_with_from(&v, 0, &prefix) {
        String::from_str(name)
    } else {
        concat2("spaces/", name)
    }
}

/// The query of a message listing.
pub open spec fn list_messages_params(p: ListMessagesParams) -> Seq<(Seq<char>, Seq<char>)> {
    seq![("pageSize"@, decimal(p.page_size as nat))] + opt_param("pageToken"@, p.page_token)
        + opt_param("orderBy"@, p.order_by) + opt_param("filter"@, p.filter)
}

/// The request that lists messages of a space.
pub fn list_messages_request(params: &ListMessagesParams) -> (r: ApiRequest)
    ensures
        r.path@ == "/"@ + space_resource(params.space_name@) + "/messages"@,
        r.params() == list_messages_params(*params),
{
    let space = space_resource_name(params.space_name.as_str());
    let mut query: Vec<(String, String)> = Vec::new();
    push_param(&mut query, "pageSize", u64_to_decimal(params.page_size as u64));
    push_opt_param(&mut query, "pageToken", &params.page_token);
    push_opt_param(&mut query, "orderBy", &params.order_by);
    push_opt_param(&mut query, "filter", &params.filter);
    let path = concat3("/", space.as_str(), "/messages");
    let r = ApiRequest { path, query };
    assert(r.params() =~= list_messages_params(*params));
    r
}

/// The path of a message: `/` and its name where that starts with `spaces/`,
/// otherwise `/spaces/` and the name.
pub open spec fn message_path(name: Seq<char>) -> Seq<char> {
    if starts_with(name, "spaces/"@) {
        "/"@ + name
    } else {
        "/spaces/"@ + name
    }
}

/// The request that gets one message.
pub fn get_message_request(message_name: &str) -> (r: ApiRequest)
    ensures
        r.path@ == message_path(message_name@),
        r.params() == Seq::<(Seq<char>, Seq<char>)>::empty(),
{
    let v = chars_of(message_name);
    let prefix = chars_of("spaces/");
    assert(v@.skip(0) =~= v@);
    let path = if starts_with_from(&v, 0, &prefix) {
        concat2("/", message_name)
    } else {
        concat2("/spaces/", message_name)
    };
    ApiRequest::plain(path)
}

/// The path and body that send `text` to a space, in a thread where one is named.
pub fn send_message_request(space_name: &str, text: &str, thread_name: Option<&str>) -> (r: (String, CreateMessageRequest))
    ensures
        r.0@ == "/"@ + space_resource(space_name@) + "/messages"@,
        r.1.text@ == text@,
        match thread_name {
            Some(t) => r.1.thread matches Some(th) && th.name matches Some(n) && n@ == t@,
            None => r.1.thread is None,
        },
{
    let space = space_resource_name(space_name);
    let body = CreateMessageRequest {
        text: String::from_str(text),
        thread: match thread_name {
            Some(t) => Some(Thread { name: Some(String::from_str(t)) }),
            None => None,
        },
    };
    (concat3("/", space.as_str(), "/messages"), body)
}


/// Normalizing a space name twice changes nothing more.
pub proof fn space_resource_idempotent(name: Seq<char>)
    ensures
        space_resource(space_resource(name)) == space_resource(name),
{
    if !starts_with(name, "spaces/"@) {
        assert(("spaces/"@ + name).take("spaces/"@.len() as int) =~= "spaces/"@);
    }
}

} // verus!
