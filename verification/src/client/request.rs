//! A request of the library: a path below a service's base URL and its query.

use vstd::prelude::*;
use vstd::string::*;
use crate::client::encoding::pairs_view;

verus! {

/// What a list or get call sends: the path and its query parameters, in order.
pub struct ApiRequest {
    pub path: String,
    pub query: Vec<(String, String)>,
}

impl ApiRequest {
    /// The query as a sequence of name/value views.
    pub open spec fn params(&self) -> Seq<(Seq<char>, Seq<char>)> {
        pairs_view(self.query@)
    }
}

/// Appends the pair `(name, value)` to a query.
pub fn push_param(query: &mut Vec<(String, String)>, name: &str, value: String)
    ensures
        pairs_view(final(query)@) == pairs_view(old(query)@).push((name@, value@)),
{
    let ghost before = query@;
    query.push((String::from_str(name), value));
    assert(pairs_view(query@) =~= pairs_view(before).push((name@, value@)));
}

/// `b.to_string()`.
pub open spec fn bool_text(b: bool) -> Seq<char> {
    if b { "true"@ } else { "false"@ }
}

pub fn bool_to_string(b: bool) -> (s: String)
    ensures
        s@ == bool_text(b),
{
    if b { String::from_str("true") } else { String::from_str("false") }
}

/// `a + b`.
pub fn concat2(a: &str, b: &str) -> (s: String)
    ensures
        s@ == a@ + b@,
{
    let mut s = String::from_str(a);
    s.append(b);
    s
}

/// `a + b + c`.
pub fn concat3(a: &str, b: &str, c: &str) -> (s: String)
    ensures
        s@ == a@ + b@ + c@,
{
    let mut s = String::from_str(a);
    s.append(b);
    s.append(c);
    s
}


/// The pair `(name, value)` where a value is given, none otherwise.
pub open spec fn opt_param(name: Seq<char>, value: Option<String>) -> Seq<(Seq<char>, Seq<char>)> {
    match value {
        Some(v) => seq![(name, v@)],
        None => Seq::empty(),
    }
}

/// Appends `(name, value)` to a query where a value is given.
pub fn push_opt_param(query: &mut Vec<(String, String)>, name: &str, value: &Option<String>)
    ensures
        pairs_view(final(query)@) == pairs_view(old(query)@) + opt_param(name@, *value),
{
    match value {
        Some(v) => {
            push_param(query, name, v.clone());
            assert(pairs_view(query@) =~= pairs_view(old(query)@) + opt_param(name@, *value));
        },
        None => {
            assert(pairs_view(query@) =~= pairs_view(old(query)@) + opt_param(name@, *value));
        },
    }
}

impl ApiRequest {
    /// A request for `path` without query parameters.
    pub fn plain(path: String) -> (r: Self)
        ensures
            r.path == path,
            r.params() == Seq::<(Seq<char>, Seq<char>)>::empty(),
    {
        let r = ApiRequest { path, query: Vec::new() };
        assert(r.params() =~= Seq::<(Seq<char>, Seq<char>)>::empty());
        r
    }
}

} // verus!
