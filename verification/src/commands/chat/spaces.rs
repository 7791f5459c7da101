//! Listing, finding and creating Chat spaces.

use vstd::prelude::*;
use vstd::string::*;
use crate::client::request::{concat2, opt_param, push_opt_param, push_param, ApiRequest};
use crate::utils::text::{chars_of, contains, contains_from, decimal, lowercased, to_lowercase, u64_to_decimal};
use super::messages::{space_resource, space_resource_name};
use super::types::{MemberRef, MembershipSetup, SetupSpaceRequest, Space, SpaceSetup};

verus! {

/// Parameters of a space listing.
pub struct ListSpacesParams {
    pub page_size: u32,
    pub page_token: Option<String>,
    pub filter: Option<String>,
}

impl Default for ListSpacesParams {
    fn default() -> (p: Self)
        ensures
            p.page_size == 100,
            p.page_token is None,
            p.filter is None,
    {
        ListSpacesParams { page_size: 100, page_token: None, filter: None }
    }
}

/// The query of a space listing.
pub open spec fn list_spaces_params(p: ListSpacesParams) -> Seq<(Seq<char>, Seq<char>)> {
    seq![("pageSize"@, decimal(p.page_size as nat))] + opt_param("pageToken"@, p.page_token)
        + opt_param("filter"@, p.filter)
}

/// The request that lists spaces.
pub fn list_spaces_request(params: &ListSpacesParams) -> (r: ApiRequest)
    ensures
        r.path@ == "/spaces"@,
        r.params() == list_spaces_params(*params),
{
    let mut query: Vec<(String, String)> = Vec::new();
    push_param(&mut query, "pageSize", u64_to_decimal(params.page_size as u64));
    push_opt_param(&mut query, "pageToken", &params.page_token);
    push_opt_param(&mut query, "filter", &params.filter);
    let r = ApiRequest { path: String::from_str("/spaces"), query };
    assert(r.params() =~= list_spaces_params(*params));
    r
}

/// The request that gets one space.
pub fn get_space_request(space_name: &str) -> (r: ApiRequest)
    ensures
        r.path@ == "/"@ + space_resource(space_name@),
        r.params() == Seq::<(Seq<char>, Seq<char>)>::empty(),
{
    let space = space_resource_name(space_name);
    ApiRequest::plain(concat2("/", space.as_str()))
}

/// The member `email` is a person to add.
pub open spec fn is_human_member(m: MembershipSetup, email: Seq<char>) -> bool {
    &&& m.member.name@ == "users/"@ + email
    &&& m.member.member_type@ == "HUMAN"@
}

/// The body that sets up a named space with the given people as members.
pub fn create_space_body(display_name: &str, member_emails: &[String]) -> (r: SetupSpaceRequest)
    ensures
        r.space.display_name matches Some(n) && n@ == display_name@,
        r.space.space_type@ == "SPACE"@,
        r.memberships@.len() == member_emails@.len(),
        forall|i: int| 0 <= i < member_emails@.len() ==> is_human_member(#[trigger] r.memberships@[i], member_emails@[i]@),
{
    let mut memberships: Vec<MembershipSetup> = Vec::new();
    for i in 0..member_emails.len()
        invariant
            memberships@.len() == i,
            forall|j: int| 0 <= j < i ==> is_human_member(#[trigger] memberships@[j], member_emails@[j]@),
    {
        let m = MembershipSetup {
            member: MemberRef {
                name: concat2("users/", member_emails[i].as_str()),
                member_type: String::from_str("HUMAN"),
            },
        };
        memberships.push(m);
    }
    SetupSpaceRequest {
        space: SpaceSetup {
            display_name: Some(String::from_str(display_name)),
            space_type: String::from_str("SPACE"),
        },
        memberships,
    }
}

/// The path that sets up a space.
pub fn create_space_path() -> (p: String)
    ensures
        p@ == "/spaces:setup"@,
{
    String::from_str("/spaces:setup")
}

/// A space matches a name when its display name, lower-cased, contains the
/// name lower-cased.
pub open spec fn space_matches(s: Space, name: Seq<char>) -> bool {
    s.display_name matches Some(n) && contains(lowercased(n@), lowercased(name))
}

/// The spaces that match `name`, in order.
pub open spec fn spaces_matching(spaces: Seq<Space>, name: Seq<char>) -> Seq<Space>
    decreases spaces.len(),
{
    if spaces.len() == 0 {
        Seq::empty()
    } else if space_matches(spaces.last(), name) {
        spaces_matching(spaces.drop_last(), name).push(spaces.last())
    } else {
        spaces_matching(spaces.drop_last(), name)
    }
}

/// Keeps the spaces whose display name contains `name`, ignoring case.
pub fn filter_spaces_by_name(spaces: &Vec<Space>, name: &str) -> (r: Vec<Space>)
    ensures
        r@ == spaces_matching(spaces@, name@),
{
    let lower = to_lowercase(name);
    let needle = chars_of(lower.as_str());
    let mut r: Vec<Space> = Vec::new();
    for i in 0..spaces.len()
        invariant
            needle@ == lowercased(name@),
            r@ == spaces_matching(spaces@.take(i as int), name@),
    {
        assert(spaces@.take(i + 1).drop_last() =~= spaces@.take(i as int));
        let keep = match &spaces[i].display_name {
            Some(n) => {
                let l = to_lowercase(n.as_str());
                let hay = chars_of(l.as_str());
                assert(hay@.skip(0) =~= hay@);
                contains_from(&hay, 0, &needle)
            },
            None => false,
        };
        if keep {
            r.push(spaces[i].clone());
        }
    }
    assert(spaces@.take(spaces@.len() as int) =~= spaces@);
    r
}

/// The listing that a search by name looks through: 200 spaces, no filter.
pub fn find_space_listing() -> (p: ListSpacesParams)
    ensures
        p.page_size == 200,
        p.page_token is None,
        p.filter is None,
{
    ListSpacesParams { page_size: 200, page_token: None, filter: None }
}

/// The request that finds the direct-message space with a person.
pub fn find_direct_message_request(email: &str) -> (r: ApiRequest)
    ensures
        r.path@ == "/spaces:findDirectMessage"@,
        r.params() == seq![("name"@, "users/"@ + email@)],
{
    let mut query: Vec<(String, String)> = Vec::new();
    push_param(&mut query, "name", concat2("users/", email));
    let r = ApiRequest { path: String::from_str("/spaces:findDirectMessage"), query };
    assert(r.params() =~= seq![("name"@, "users/"@ + email@)]);
    r
}

} // verus!
