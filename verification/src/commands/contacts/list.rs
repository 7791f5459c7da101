//! Listing and reading personal contacts.

use vstd::prelude::*;
use vstd::string::*;
use crate::client::request::{concat2, opt_param, push_opt_param, push_param, ApiRequest};
use crate::utils::text::{chars_of, decimal, starts_with, starts_with_from, u64_to_decimal};

verus! {

/// Parameters of a contact listing.
pub struct ListContactsParams {
    pub page_size: u32,
    pub page_token: Option<String>,
}

/// The query of a contact listing with the given person fields.
pub open spec fn list_contacts_params(p: ListContactsParams, read_mask: Seq<char>) -> Seq<(Seq<char>, Seq<char>)> {
    seq![("pageSize"@, decimal(p.page_size as nat)), ("personFields"@, read_mask)] + opt_param(
        "pageToken"@,
        p.page_token,
    )
}

/// The request that lists the user's contacts, reading the fields `read_mask`.
pub fn list_contacts_request(params: &ListContactsParams, read_mask: &str) -> (r: ApiRequest)
    ensures
        r.path@ == "/people/me/connections"@,
        r.params() == list_contacts_params(*params, read_mask@),
{
    let mut query: Vec<(String, String)> = Vec::new();
    push_param(&mut query, "pageSize", u64_to_decimal(params.page_size as u64));
    push_param(&mut query, "personFields", String::from_str(read_mask));
    push_opt_param(&mut query, "pageToken", &params.page_token);
    let r = ApiRequest { path: String::from_str("/people/me/connections"), query };
    assert(r.params() =~= list_contacts_params(*params, read_mask@));
    r
}

/// The resource name of a person: as given where it starts with `people/`,
/// otherwise with that prefix added.
pub open spec fn person_resource(name: Seq<char>) -> Seq<char> {
    if starts_with(name, "people/"@) {
        name
    } else {
        "people/"@ + name
    }
}

/// The request that gets one contact, reading the fields `read_mask`.
pub fn get_contact_request(resource_name: &str, read_mask: &str) -> (r: ApiRequest)
    ensures
        r.path@ == "/"@ + person_resource(resource_name@),
        r.params() == seq![("personFields"@, read_mask@)],
{
    let v = chars_of(resource_name);
    let prefix = chars_of("people/");
    assert(v@.skip(0) =~= v@);
    let name = if starts_with_from(&v, 0, &prefix) {
        String::from_str(resource_name)
    } else {
        concat2("people/", resource_name)
    };
    let mut query: Vec<(String, String)> = Vec::new();
    push_param(&mut query, "personFields", String::from_str(read_mask));
    let r = ApiRequest { path: concat2("/", name.as_str()), query };
    assert(r.params() =~= seq![("personFields"@, read_mask@)]);
    r
}


/// Normalizing a person's resource name twice changes nothing more.
pub proof fn person_resource_idempotent(name: Seq<char>)
    ensures
        person_resource(person_resource(name)) == person_resource(name),
{
    if !starts_with(name, "people/"@) {
        assert(("people/"@ + name).take("people/"@.len() as int) =~= "people/"@);
    }
}

} // verus!
