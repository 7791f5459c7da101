//! Searching contacts and the domain directory.

use vstd::prelude::*;
use vstd::string::*;
use crate::client::request::{opt_param, push_param, ApiRequest};
use crate::utils::text::{decimal, u64_to_decimal};

verus! {

/// The request that searches the user's contacts.
pub fn search_contacts_request(query: &str, page_size: u32, read_mask: &str) -> (r: ApiRequest)
    ensures
        r.path@ == "/people:searchContacts"@,
        r.params() == seq![
            ("query"@, query@),
            ("pageSize"@, decimal(page_size as nat)),
            ("readMask"@, read_mask@),
        ],
{
    let mut q: Vec<(String, String)> = Vec::new();
    push_param(&mut q, "query", String::from_str(query));
    push_param(&mut q, "pageSize", u64_to_decimal(page_size as u64));
    push_param(&mut q, "readMask", String::from_str(read_mask));
    let r = ApiRequest { path: String::from_str("/people:searchContacts"), query: q };
    assert(r.params() =~= seq![
        ("query"@, query@),
        ("pageSize"@, decimal(page_size as nat)),
        ("readMask"@, read_mask@),
    ]);
    r
}

/// Parameters of a directory listing.
pub struct DirectoryListParams {
    pub page_size: u32,
    pub page_token: Option<String>,
}

/// The directory query common to listing and searching: names and addresses
/// from the domain profiles.
pub open spec fn directory_params(page_size: u32) -> Seq<(Seq<char>, Seq<char>)> {
    seq![
        ("pageSize"@, decimal(page_size as nat)),
        ("readMask"@, "names,emailAddresses"@),
        ("sources"@, "DIRECTORY_SOURCE_TYPE_DOMAIN_PROFILE"@),
    ]
}

fn push_directory_params(q: &mut Vec<(String, String)>, page_size: u32)
    ensures
        crate::client::encoding::pairs_view(final(q)@) == crate::client::encoding::pairs_view(old(q)@)
            + directory_params(page_size),
{
    push_param(q, "pageSize", u64_to_decimal(page_size as u64));
    push_param(q, "readMask", String::from_str("names,emailAddresses"));
    push_param(q, "sources", String::from_str("DIRECTORY_SOURCE_TYPE_DOMAIN_PROFILE"));
    assert(crate::client::encoding::pairs_view(q@) =~= crate::client::encoding::pairs_view(old(q)@)
        + directory_params(page_size));
}

/// The request that lists the people of the domain directory.
pub fn list_directory_request(params: &DirectoryListParams) -> (r: ApiRequest)
    ensures
        r.path@ == "/people:listDirectoryPeople"@,
        r.params() == directory_params(params.page_size) + opt_param("pageToken"@, params.page_token),
{
    let mut q: Vec<(String, String)> = Vec::new();
    push_directory_params(&mut q, params.page_size);
    crate::client::request::push_opt_param(&mut q, "pageToken", &params.page_token);
    let r = ApiRequest { path: String::from_str("/people:listDirectoryPeople"), query: q };
    assert(r.params() =~= directory_params(params.page_size) + opt_param("pageToken"@, params.page_token));
    r
}

/// The request that searches the domain directory.
pub fn search_directory_request(query: &str, page_size: u32, page_token: Option<&str>) -> (r: ApiRequest)
    ensures
        r.path@ == "/people:searchDirectoryPeople"@,
        r.params() == seq![("query"@, query@)] + directory_params(page_size) + match page_token {
            Some(t) => seq![("pageToken"@, t@)],
            None => Seq::empty(),
        },
{
    let mut q: Vec<(String, String)> = Vec::new();
    push_param(&mut q, "query", String::from_str(query));
    push_directory_params(&mut q, page_size);
    match page_token {
        Some(t) => push_param(&mut q, "pageToken", String::from_str(t)),
        None => {},
    }
    let r = ApiRequest { path: String::from_str("/people:searchDirectoryPeople"), query: q };
    assert(r.params() =~= seq![("query"@, query@)] + directory_params(page_size) + match page_token {
        Some(t) => seq![("pageToken"@, t@)],
        None => Seq::empty(),
    });
    r
}

} // verus!
