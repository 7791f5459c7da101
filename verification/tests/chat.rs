use workspace_cli::cli::{message_order_by, parse_fields, validate_space_type};
use workspace_cli::commands::chat::messages::{
    get_message_request, list_messages_request, send_message_request, space_resource_name,
    ListMessagesParams,
};
use workspace_cli::commands::chat::spaces::{
    create_space_body, create_space_path, filter_spaces_by_name, find_direct_message_request,
    find_space_listing, get_space_request, list_spaces_request, ListSpacesParams,
};
use workspace_cli::commands::chat::types::Space;

fn pairs(q: &[(String, String)]) -> Vec<(&str, &str)> {
    q.iter().map(|(a, b)| (a.as_str(), b.as_str())).collect()
}

#[test]
fn space_names_normalized() {
    assert_eq!(space_resource_name("AAA"), "spaces/AAA");
    assert_eq!(space_resource_name("spaces/AAA"), "spaces/AAA");
    assert_eq!(space_resource_name(&space_resource_name("B")), "spaces/B");
}

#[test]
fn message_requests() {
    let mut p = ListMessagesParams::new("AAA".to_string());
    assert_eq!(p.page_size, 25);
    p.order_by = Some("createTime DESC".to_string());
    p.filter = Some("createTime > \"x\"".to_string());
    let r = list_messages_request(&p);
    assert_eq!(r.path, "/spaces/AAA/messages");
    assert_eq!(pairs(&r.query), vec![("pageSize", "25"), ("orderBy", "createTime DESC"), ("filter", "createTime > \"x\"")]);
    assert_eq!(get_message_request("spaces/A/messages/M").path, "/spaces/A/messages/M");
    assert_eq!(get_message_request("A/messages/M").path, "/spaces/A/messages/M");
    let (path, body) = send_message_request("A", "hi", Some("spaces/A/threads/T"));
    assert_eq!(path, "/spaces/A/messages");
    assert_eq!(body.text, "hi");
    assert_eq!(body.thread.unwrap().name.as_deref(), Some("spaces/A/threads/T"));
    assert!(send_message_request("A", "hi", None).1.thread.is_none());
}

#[test]
fn space_requests() {
    let d = ListSpacesParams::default();
    assert_eq!(d.page_size, 100);
    let r = list_spaces_request(&ListSpacesParams { page_size: 10, page_token: Some("t".to_string()), filter: None });
    assert_eq!(r.path, "/spaces");
    assert_eq!(pairs(&r.query), vec![("pageSize", "10"), ("pageToken", "t")]);
    assert_eq!(get_space_request("X").path, "/spaces/X");
    assert_eq!(find_space_listing().page_size, 200);
    let dm = find_direct_message_request("bob@x.com");
    assert_eq!(dm.path, "/spaces:findDirectMessage");
    assert_eq!(pairs(&dm.query), vec![("name", "users/bob@x.com")]);
    let body = create_space_body("Team", &["a@x.com".to_string(), "b@x.com".to_string()]);
    assert_eq!(body.space.display_name.as_deref(), Some("Team"));
    assert_eq!(body.space.space_type, "SPACE");
    assert_eq!(body.memberships.len(), 2);
    assert_eq!(body.memberships[1].member.name, "users/b@x.com");
    assert_eq!(body.memberships[1].member.member_type, "HUMAN");
    assert_eq!(create_space_path(), "/spaces:setup");
}

fn space(name: &str, display: Option<&str>) -> Space {
    Space { name: Some(name.to_string()), display_name: display.map(|d| d.to_string()), space_type: None }
}

#[test]
fn find_by_name_ignores_case() {
    let spaces = vec![space("s1", Some("Project ÉLAN")), space("s2", None), space("s3", Some("lunch")), space("s4", Some("Élan team"))];
    let found = filter_spaces_by_name(&spaces, "éLaN");
    let names: Vec<&str> = found.iter().map(|s| s.name.as_deref().unwrap()).collect();
    assert_eq!(names, vec!["s1", "s4"]);
    assert!(filter_spaces_by_name(&spaces, "zzz").is_empty());
}

#[test]
fn space_type_validation() {
    assert_eq!(validate_space_type("space"), Ok("SPACE".to_string()));
    assert_eq!(validate_space_type("Direct_Message"), Ok("DIRECT_MESSAGE".to_string()));
    assert_eq!(validate_space_type("all"), Ok("ALL".to_string()));
    assert_eq!(
        validate_space_type("room"),
        Err("Invalid space type 'room': must be one of SPACE, DIRECT_MESSAGE, GROUP_CHAT, or ALL".to_string())
    );
}

#[test]
fn cli_options() {
    assert_eq!(message_order_by("ASC"), "createTime ASC");
    assert_eq!(message_order_by("desc"), "createTime DESC");
    assert_eq!(message_order_by("other"), "createTime DESC");
    assert_eq!(parse_fields(" id, name ,,subject "), vec!["id".to_string(), "name".to_string(), "subject".to_string()]);
    assert!(parse_fields(" , ").is_empty());
}
