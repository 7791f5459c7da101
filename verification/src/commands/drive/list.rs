//! Listing files and shared drives.

use vstd::prelude::*;
use vstd::string::*;
use crate::client::encoding::pairs_view;
use crate::client::request::{concat2, opt_param, push_opt_param, push_param, ApiRequest};
use crate::utils::text::{decimal, u64_to_decimal};

verus! {

/// Parameters of a file listing.
pub struct ListParams {
    pub query: Option<String>,
    pub max_results: u32,
    pub page_token: Option<String>,
    pub order_by: Option<String>,
    pub fields: Option<String>,
    pub corpora: Option<String>,
    pub include_permissions: bool,
}

impl Default for ListParams {
    fn default() -> (p: Self)
        ensures
            p.query is None,
            p.max_results == 20,
            p.page_token is None,
            p.order_by is None,
            p.fields is None,
            p.corpora is None,
            !p.include_permissions,
    {
        ListParams {
            query: None,
            max_results: 20,
            page_token: None,
            order_by: None,
            fields: None,
            corpora: None,
            include_permissions: false,
        }
    }
}

/// Fields of each file in a listing, unless the caller names others.
pub const DEFAULT_FILE_FIELDS: &'static str = "id,name,mimeType,owners(emailAddress),createdTime,modifiedTime,viewedByMeTime,size,parents,shared,shortcutDetails(targetId,targetMimeType)";

/// Fields added to each file when permissions are asked for.
pub const PERMISSION_FIELDS: &'static str = ",permissions(id,type,role,emailAddress,domain),driveId";

/// The `fields` parameter of a listing: the page token, the incomplete-search
/// flag and the file fields (permissions appended where asked for).
pub open spec fn listing_fields(p: ListParams) -> Seq<char> {
    let file_fields = match p.fields {
        Some(f) => f@,
        None => DEFAULT_FILE_FIELDS@,
    };
    "nextPageToken,incompleteSearch,files("@ + file_fields + (if p.include_permissions {
        PERMISSION_FIELDS@
    } else {
        Seq::empty()
    }) + ")"@
}

/// The query of a file listing. A corpus other than `user` also asks for
/// items from all drives.
pub open spec fn list_files_params(p: ListParams) -> Seq<(Seq<char>, Seq<char>)> {
    seq![("pageSize"@, decimal(p.max_results as nat))] + opt_param("q"@, p.query) + opt_param(
        "pageToken"@,
        p.page_token,
    ) + opt_param("orderBy"@, p.order_by) + seq![("fields"@, listing_fields(p))] + match p.corpora {
        Some(c) => if c@ != "user"@ {
            seq![
                ("corpora"@, c@),
                ("supportsAllDrives"@, "true"@),
                ("includeItemsFromAllDrives"@, "true"@),
            ]
        } else {
            seq![("corpora"@, c@)]
        },
        None => Seq::empty(),
    }
}

/// The request that lists files.
pub fn list_files_request(params: &ListParams) -> (r: ApiRequest)
    ensures
        r.path@ == "/files"@,
        r.params() == list_files_params(*params),
{
    let mut q: Vec<(String, String)> = Vec::new();
    push_param(&mut q, "pageSize", u64_to_decimal(params.max_results as u64));
    push_opt_param(&mut q, "q", &params.query);
    push_opt_param(&mut q, "pageToken", &params.page_token);
    push_opt_param(&mut q, "orderBy", &params.order_by);
    let file_fields: &str = match &params.fields {
        Some(f) => f.as_str(),
        None => DEFAULT_FILE_FIELDS,
    };
    let mut fields_str = String::from_str("nextPageToken,incompleteSearch,files(");
    fields_str.append(file_fields);
    if params.include_permissions {
        fields_str.append(PERMISSION_FIELDS);
    }
    fields_str.append(")");
    assert(fields_str@ =~= listing_fields(*params));
    push_param(&mut q, "fields", fields_str);
    let ghost before_corpora = pairs_view(q@);
    match &params.corpora {
        Some(corpora) => {
            push_param(&mut q, "corpora", corpora.clone());
            if !corpora.eq(&String::from_str("user")) {
                push_param(&mut q, "supportsAllDrives", String::from_str("true"));
                push_param(&mut q, "includeItemsFromAllDrives", String::from_str("true"));
            }
        },
        None => {},
    }
    let r = ApiRequest { path: String::from_str("/files"), query: q };
    assert(r.params() =~= list_files_params(*params));
    r
}

/// Fields of a file read by id, unless the caller names others.
pub const DEFAULT_GET_FIELDS: &'static str = "id,name,mimeType,webViewLink,webContentLink,size,createdTime,modifiedTime,parents";

/// The request that reads one file's metadata.
pub fn get_file_request(file_id: &str, fields: Option<&str>) -> (r: ApiRequest)
    ensures
        r.path@ == "/files/"@ + file_id@,
        r.params() == seq![("fields"@, match fields {
            Some(f) => f@,
            None => DEFAULT_GET_FIELDS@,
        })],
{
    let f: &str = match fields {
        Some(f) => f,
        None => DEFAULT_GET_FIELDS,
    };
    let mut q: Vec<(String, String)> = Vec::new();
    push_param(&mut q, "fields", String::from_str(f));
    let r = ApiRequest { path: concat2("/files/", file_id), query: q };
    assert(r.params() =~= seq![("fields"@, f@)]);
    r
}

/// The request that lists all shared drives of the domain, with
/// administrator access.
pub fn list_drives_request(limit: u32, page_token: Option<&str>) -> (r: ApiRequest)
    ensures
        r.path@ == "/drives"@,
        r.params() == seq![("pageSize"@, decimal(limit as nat)), ("useDomainAdminAccess"@, "true"@)]
            + match page_token {
            Some(t) => seq![("pageToken"@, t@)],
            None => Seq::empty(),
        },
{
    let mut q: Vec<(String, String)> = Vec::new();
    push_param(&mut q, "pageSize", u64_to_decimal(limit as u64));
    push_param(&mut q, "useDomainAdminAccess", String::from_str("true"));
    match page_token {
        Some(t) => push_param(&mut q, "pageToken", String::from_str(t)),
        None => {},
    }
    let r = ApiRequest { path: String::from_str("/drives"), query: q };
    assert(r.params() =~= seq![("pageSize"@, decimal(limit as nat)), ("useDomainAdminAccess"@, "true"@)]
        + match page_token {
        Some(t) => seq![("pageToken"@, t@)],
        None => Seq::empty(),
    });
    r
}

} // verus!
