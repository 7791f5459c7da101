use workspace_cli::commands::contacts::list::{get_contact_request, list_contacts_request, ListContactsParams};
use workspace_cli::commands::contacts::search::{
    list_directory_request, search_contacts_request, search_directory_request, DirectoryListParams,
};
use workspace_cli::commands::drive::list::{get_file_request, list_drives_request, list_files_request, ListParams};
use workspace_cli::commands::gmail::list::{
    list_messages_request, metadata_request_path, summarize_message, summarize_messages,
    ListParams as GmailListParams, MetadataHeader, MetadataResponse,
};

fn pairs(q: &[(String, String)]) -> Vec<(&str, &str)> {
    q.iter().map(|(a, b)| (a.as_str(), b.as_str())).collect()
}

#[test]
fn contact_requests() {
    let r = list_contacts_request(&ListContactsParams { page_size: 100, page_token: None }, "names,emailAddresses");
    assert_eq!(r.path, "/people/me/connections");
    assert_eq!(pairs(&r.query), vec![("pageSize", "100"), ("personFields", "names,emailAddresses")]);
    assert_eq!(get_contact_request("c123", "names").path, "/people/c123");
    assert_eq!(get_contact_request("people/c123", "names").path, "/people/c123");
    let s = search_contacts_request("ann", 50, "names");
    assert_eq!(s.path, "/people:searchContacts");
    assert_eq!(pairs(&s.query), vec![("query", "ann"), ("pageSize", "50"), ("readMask", "names")]);
    let d = list_directory_request(&DirectoryListParams { page_size: 10, page_token: Some("p".to_string()) });
    assert_eq!(
        pairs(&d.query),
        vec![("pageSize", "10"), ("readMask", "names,emailAddresses"), ("sources", "DIRECTORY_SOURCE_TYPE_DOMAIN_PROFILE"), ("pageToken", "p")]
    );
    let sd = search_directory_request("bob", 5, None);
    assert_eq!(sd.path, "/people:searchDirectoryPeople");
    assert_eq!(sd.query.len(), 4);
    assert_eq!(sd.query[0].1, "bob");
}

#[test]
fn drive_requests() {
    let r = list_files_request(&ListParams::default());
    assert_eq!(r.path, "/files");
    assert_eq!(r.query.len(), 2);
    assert_eq!(r.query[1].1, "nextPageToken,incompleteSearch,files(id,name,mimeType,owners(emailAddress),createdTime,modifiedTime,viewedByMeTime,size,parents,shared,shortcutDetails(targetId,targetMimeType))");
    let mut p = ListParams::default();
    p.query = Some("name contains 'x'".to_string());
    p.fields = Some("id,name".to_string());
    p.include_permissions = true;
    p.corpora = Some("allDrives".to_string());
    let r = list_files_request(&p);
    assert_eq!(
        pairs(&r.query),
        vec![
            ("pageSize", "20"),
            ("q", "name contains 'x'"),
            ("fields", "nextPageToken,incompleteSearch,files(id,name,permissions(id,type,role,emailAddress,domain),driveId)"),
            ("corpora", "allDrives"),
            ("supportsAllDrives", "true"),
            ("includeItemsFromAllDrives", "true"),
        ]
    );
    p.corpora = Some("user".to_string());
    assert_eq!(list_files_request(&p).query.len(), 4);
    let g = get_file_request("F1", None);
    assert_eq!(g.path, "/files/F1");
    assert_eq!(g.query[0].1, "id,name,mimeType,webViewLink,webContentLink,size,createdTime,modifiedTime,parents");
    assert_eq!(get_file_request("F1", Some("id")).query[0].1, "id");
    let d = list_drives_request(50, Some("t"));
    assert_eq!(pairs(&d.query), vec![("pageSize", "50"), ("useDomainAdminAccess", "true"), ("pageToken", "t")]);
}

#[test]
fn gmail_requests() {
    let mut p = GmailListParams::default();
    p.query = Some("is:unread".to_string());
    p.label_ids = Some(vec!["INBOX".to_string(), "STARRED".to_string()]);
    let r = list_messages_request(&p);
    assert_eq!(r.path, "/users/me/messages");
    assert_eq!(pairs(&r.query), vec![("maxResults", "20"), ("q", "is:unread"), ("labelIds", "INBOX"), ("labelIds", "STARRED")]);
    assert_eq!(
        metadata_request_path("m1"),
        "/gmail/v1/users/me/messages/m1?format=metadata&metadataHeaders=Subject&metadataHeaders=From&metadataHeaders=Date"
    );
}

fn header(name: Option<&str>, value: Option<&str>) -> MetadataHeader {
    MetadataHeader { name: name.map(|s| s.to_string()), value: value.map(|s| s.to_string()) }
}

#[test]
fn summaries() {
    let full = MetadataResponse {
        request_id: "req".to_string(),
        id: Some("m1".to_string()),
        thread_id: Some("t1".to_string()),
        headers: Some(vec![
            header(Some("From"), Some("a@x.com")),
            header(None, Some("ignored")),
            header(Some("Subject"), None),
            header(Some("Subject"), Some("second")),
            header(Some("Date"), Some("Mon")),
        ]),
        snippet: Some("hello".to_string()),
    };
    let s = summarize_message(&full);
    assert_eq!(s.id, "m1");
    assert_eq!(s.thread_id, "t1");
    assert_eq!(s.from.as_deref(), Some("a@x.com"));
    // The first Subject header decides, even without a value.
    assert!(s.subject.is_none());
    assert_eq!(s.date.as_deref(), Some("Mon"));
    assert_eq!(s.snippet.as_deref(), Some("hello"));
    let bare = MetadataResponse { request_id: "req".to_string(), id: None, thread_id: None, headers: None, snippet: None };
    let b = summarize_message(&bare);
    assert_eq!(b.id, "req");
    assert_eq!(b.thread_id, "req");
    assert!(b.from.is_none());
    assert_eq!(summarize_messages(&vec![bare, full]).len(), 2);
}
