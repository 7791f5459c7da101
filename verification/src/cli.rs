//! Decisions on command-line arguments.

use vstd::prelude::*;
use vstd::string::*;
use crate::client::request::concat3;
use crate::utils::text::{
    lowercased, string_of, to_lowercase, to_uppercase, trimmed_nonempty, trimmed_pieces,
    split_on, uppercased, views, string_views, trimmed_all, trimmed_split,
};

verus! {

/// The space types a Chat listing can be filtered by.
pub open spec fn is_space_type(t: Seq<char>) -> bool {
    t == "SPACE"@ || t == "DIRECT_MESSAGE"@ || t == "GROUP_CHAT"@ || t == "ALL"@
}

/// The message for a space type that is not one of the four.
pub open spec fn invalid_space_type_message(t: Seq<char>) -> Seq<char> {
    "Invalid space type '"@ + t + "': must be one of SPACE, DIRECT_MESSAGE, GROUP_CHAT, or ALL"@
}

/// Validates a Chat space-type filter: its upper-case form where that is one
/// of `SPACE`, `DIRECT_MESSAGE`, `GROUP_CHAT`, `ALL`; otherwise the error message.
pub fn validate_space_type(t: &str) -> (r: Result<String, String>)
    ensures
        r matches Ok(u) ==> u@ == uppercased(t@),
        r is Ok <==> is_space_type(uppercased(t@)),
        r matches Err(m) ==> m@ == invalid_space_type_message(t@),
{
    let upper = to_uppercase(t);
    if upper.eq(&String::from_str("SPACE")) || upper.eq(&String::from_str("DIRECT_MESSAGE"))
        || upper.eq(&String::from_str("GROUP_CHAT")) || upper.eq(&String::from_str("ALL")) {
        Ok(upper)
    } else {
        Err(concat3(
            "Invalid space type '",
            t,
            "': must be one of SPACE, DIRECT_MESSAGE, GROUP_CHAT, or ALL",
        ))
    }
}

/// The ordering of a message listing: ascending where the option reads `asc`
/// in any case, descending otherwise.
pub fn message_order_by(order: &str) -> (r: String)
    ensures
        r@ == if lowercased(order@) == "asc"@ { "createTime ASC"@ } else { "createTime DESC"@ },
{
    let lower = to_lowercase(order);
    if lower.eq(&String::from_str("asc")) {
        String::from_str("createTime ASC")
    } else {
        String::from_str("createTime DESC")
    }
}

/// The field names of a `--fields` option: the comma-separated names,
/// trimmed, empty ones dropped.
pub fn parse_fields(fields: &str) -> (r: Vec<String>)
    ensures
        r@.len() == trimmed_nonempty(split_on(fields@, ',')).len(),
        forall|i: int| 0 <= i < r@.len() ==> #[trigger] r@[i]@ == trimmed_nonempty(split_on(fields@, ','))[i],
{
    let pieces = trimmed_pieces(fields, ',');
    let mut r: Vec<String> = Vec::new();
    for i in 0..pieces.len()
        invariant
            views(pieces@) == trimmed_nonempty(split_on(fields@, ',')),
            r@.len() == i,
            forall|j: int| 0 <= j < i ==> #[trigger] r@[j]@ == pieces@[j]@,
    {
        r.push(string_of(&pieces[i]));
    }
    assert forall|i: int| 0 <= i < r@.len() implies #[trigger] r@[i]@ == trimmed_nonempty(split_on(fields@, ','))[i] by {
        assert(views(pieces@)[i] == pieces@[i]@);
    }
    r
}


/// The Drive query of a listing: the given query restricted to a parent
/// folder where one is named.
pub open spec fn drive_query_of(query: Option<Seq<char>>, parent: Option<Seq<char>>) -> Option<Seq<char>> {
    match (query, parent) {
        (Some(q), Some(p)) => Some("'"@ + p + "' in parents and ("@ + q + ")"@),
        (Some(q), None) => Some(q),
        (None, Some(p)) => Some("'"@ + p + "' in parents"@),
        (None, None) => None,
    }
}

/// A Drive query restricted to a folder keeps both conditions, joined by
/// `and`: the folder's files that match the query. Without a folder the query
/// goes as given, and a folder alone lists its files.
pub proof fn drive_query_laws(q: Seq<char>, p: Seq<char>)
    ensures
        drive_query_of(Some(q), Some(p)) == Some("'"@ + p + "' in parents and ("@ + q + ")"@),
        drive_query_of(Some(q), None) == Some(q),
        drive_query_of(None, Some(p)) == Some("'"@ + p + "' in parents"@),
        drive_query_of(None, None) == None::<Seq<char>>,
{
}

pub open spec fn opt_str_view(o: Option<String>) -> Option<Seq<char>> {
    match o {
        Some(s) => Some(s@),
        None => None,
    }
}

/// Builds the Drive query of a listing from `--query` and `--parent`.
pub fn drive_query(query: Option<String>, parent: Option<String>) -> (r: Option<String>)
    ensures
        opt_str_view(r) == drive_query_of(opt_str_view(query), opt_str_view(parent)),
{
    match (query, parent) {
        (Some(q), Some(p)) => {
            let mut s = concat3("'", p.as_str(), "' in parents and (");
            s.append(q.as_str());
            s.append(")");
            Some(s)
        },
        (Some(q), None) => Some(q),
        (None, Some(p)) => Some(concat3("'", p.as_str(), "' in parents")),
        (None, None) => None,
    }
}

/// The space listing filter of a `--type` option: none for `ALL`, otherwise
/// `spaceType = "<TYPE>"`; the validation error for an unknown type.
pub fn space_type_filter(t: &str) -> (r: Result<Option<String>, String>)
    ensures
        r is Ok <==> is_space_type(uppercased(t@)),
        r matches Ok(f) ==> opt_str_view(f) == if uppercased(t@) == "ALL"@ {
            None
        } else {
            Some("spaceType = \""@ + uppercased(t@) + "\""@)
        },
        r matches Err(m) ==> m@ == invalid_space_type_message(t@),
{
    let validated = validate_space_type(t)?;
    if validated.eq(&String::from_str("ALL")) {
        Ok(None)
    } else {
        Ok(Some(concat3("spaceType = \"", validated.as_str(), "\"")))
    }
}

/// The message listing filter: created after the start of today (where
/// given) or after `--after`, and before `--before`, joined with ` AND `.
pub open spec fn message_filter_of(today_start: Option<Seq<char>>, after: Option<Seq<char>>, before: Option<Seq<char>>) -> Option<Seq<char>> {
    let lower = match today_start {
        Some(t) => Some(t),
        None => after,
    };
    match (lower, before) {
        (Some(a), Some(b)) => Some("createTime > \""@ + a + "\" AND createTime < \""@ + b + "\""@),
        (Some(a), None) => Some("createTime > \""@ + a + "\""@),
        (None, Some(b)) => Some("createTime < \""@ + b + "\""@),
        (None, None) => None,
    }
}

/// The bounds of a message listing: the lower bound (the start of today where
/// given, else `--after`) is `createTime > ..`, the upper bound `--before` is
/// `createTime < ..`, and both together are joined by ` AND `.
pub proof fn message_filter_laws(t: Seq<char>, a: Seq<char>, b: Seq<char>, after: Option<Seq<char>>, before: Option<Seq<char>>)
    ensures
        message_filter_of(None, Some(a), None) == Some("createTime > \""@ + a + "\""@),
        message_filter_of(None, None, Some(b)) == Some("createTime < \""@ + b + "\""@),
        message_filter_of(None, Some(a), Some(b))
            == Some("createTime > \""@ + a + "\" AND createTime < \""@ + b + "\""@),
        message_filter_of(None, None, None) == None::<Seq<char>>,
        message_filter_of(Some(t), after, before) == message_filter_of(None, Some(t), before),
{
}

/// Builds the filter of a message listing.
pub fn message_filter(today_start: Option<String>, after: Option<String>, before: Option<String>) -> (r: Option<String>)
    ensures
        opt_str_view(r) == message_filter_of(opt_str_view(today_start), opt_str_view(after), opt_str_view(before)),
{
    let lower = match today_start {
        Some(t) => Some(t),
        None => after,
    };
    match (lower, before) {
        (Some(a), Some(b)) => {
            let mut s = concat3("createTime > \"", a.as_str(), "\" AND createTime < \"");
            s.append(b.as_str());
            s.append("\"");
            Some(s)
        },
        (Some(a), None) => Some(concat3("createTime > \"", a.as_str(), "\"")),
        (None, Some(b)) => Some(concat3("createTime < \"", b.as_str(), "\"")),
        (None, None) => None,
    }
}

/// The labels of a comma-separated `--add-labels` / `--remove-labels`
/// option: each name trimmed, none when the option is absent.
pub open spec fn label_list(labels: Option<Seq<char>>) -> Seq<Seq<char>> {
    match labels {
        Some(s) => trimmed_all(split_on(s, ',')),
        None => Seq::empty(),
    }
}

/// The labels a message modification adds: those given, then `UNREAD` for
/// `--mark-unread` and `STARRED` for `--star`.
pub open spec fn labels_added(add: Option<Seq<char>>, mark_unread: bool, star: bool) -> Seq<Seq<char>> {
    let given = label_list(add);
    let with_unread = if mark_unread { given.push("UNREAD"@) } else { given };
    if star { with_unread.push("STARRED"@) } else { with_unread }
}

/// The labels a message modification removes: those given, then `UNREAD`
/// for `--mark-read`, `STARRED` for `--unstar` and `INBOX` for `--archive`.
pub open spec fn labels_removed(remove: Option<Seq<char>>, mark_read: bool, unstar: bool, archive: bool) -> Seq<Seq<char>> {
    let given = label_list(remove);
    let with_read = if mark_read { given.push("UNREAD"@) } else { given };
    let with_unstar = if unstar { with_read.push("STARRED"@) } else { with_read };
    if archive { with_unstar.push("INBOX"@) } else { with_unstar }
}

fn labels_of(labels: Option<String>) -> (r: Vec<String>)
    ensures
        string_views(r@) == label_list(opt_str_view(labels)),
{
    match labels {
        Some(s) => trimmed_split(s.as_str(), ','),
        None => {
            let r: Vec<String> = Vec::new();
            assert(string_views(r@) =~= Seq::<Seq<char>>::empty());
            r
        },
    }
}

fn push_label(labels: &mut Vec<String>, name: &str)
    ensures
        string_views(final(labels)@) == string_views(old(labels)@).push(name@),
{
    let ghost prev = labels@;
    labels.push(String::from_str(name));
    assert(string_views(labels@) =~= string_views(prev).push(name@));
}

/// The label changes of a message modification: the labels to add and the
/// labels to remove, from the label options and the convenience flags.
pub fn label_changes(
    add_labels: Option<String>,
    remove_labels: Option<String>,
    mark_read: bool,
    mark_unread: bool,
    star: bool,
    unstar: bool,
    archive: bool,
) -> (r: (Vec<String>, Vec<String>))
    ensures
        string_views(r.0@) == labels_added(opt_str_view(add_labels), mark_unread, star),
        string_views(r.1@) == labels_removed(opt_str_view(remove_labels), mark_read, unstar, archive),
{
    let mut add = labels_of(add_labels);
    let mut remove = labels_of(remove_labels);
    if mark_read {
        push_label(&mut remove, "UNREAD");
    }
    if mark_unread {
        push_label(&mut add, "UNREAD");
    }
    if star {
        push_label(&mut add, "STARRED");
    }
    if unstar {
        push_label(&mut remove, "STARRED");
    }
    if archive {
        push_label(&mut remove, "INBOX");
    }
    (add, remove)
}

/// The page size of a task listing: the API takes at most 100.
pub fn task_page_size(limit: u32) -> (r: u32)
    ensures
        r == if limit < 100 { limit } else { 100 },
{
    if limit < 100 { limit } else { 100 }
}

} // verus!

