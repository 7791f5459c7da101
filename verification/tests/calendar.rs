use workspace_cli::commands::calendar::create::{
    build_event, create_event_path, generate_request_id, organizer_patch, request_id_from_nanos,
    CreateEventParams,
};
use workspace_cli::commands::calendar::list::{list_calendars_request, list_events_request, ListEventsParams};
use workspace_cli::commands::calendar::types::{Attendee, Event, EventDateTime, EventList, MinimalEvent, MinimalEventList};

fn dt(date_time: &str) -> EventDateTime {
    EventDateTime { date: None, date_time: Some(date_time.to_string()), time_zone: Some("UTC".to_string()) }
}

fn sample_event(id: &str) -> Event {
    Event {
        id: Some(id.to_string()),
        summary: Some("Standup".to_string()),
        description: Some("daily".to_string()),
        location: Some("Room 1".to_string()),
        start: Some(dt("2025-01-15T14:00:00Z")),
        end: Some(dt("2025-01-15T15:00:00Z")),
        status: Some("confirmed".to_string()),
        attendees: vec![Attendee { email: "a@x.com".to_string(), optional: false, response_status: None }],
        organizer: None,
        html_link: Some("https://cal/x".to_string()),
        created: None,
        updated: None,
        recurrence: None,
        conference_data: None,
        hangout_link: None,
    }
}

fn pairs(q: &[(String, String)]) -> Vec<(&str, &str)> {
    q.iter().map(|(a, b)| (a.as_str(), b.as_str())).collect()
}

#[test]
fn minimal_event_keeps_core_fields() {
    let e = sample_event("e1");
    let m = MinimalEvent::from_event(&e);
    assert_eq!(m.id.as_deref(), Some("e1"));
    assert_eq!(m.summary.as_deref(), Some("Standup"));
    assert_eq!(m.start.unwrap().date_time.as_deref(), Some("2025-01-15T14:00:00Z"));
    assert_eq!(m.status.as_deref(), Some("confirmed"));
    let list = EventList {
        items: vec![sample_event("e1"), sample_event("e2")],
        next_page_token: Some("n".to_string()),
        next_sync_token: None,
        summary: None,
        time_zone: None,
    };
    let ml = MinimalEventList::from_event_list(&list);
    assert_eq!(ml.items.len(), 2);
    assert_eq!(ml.items[1].id.as_deref(), Some("e2"));
    assert_eq!(ml.next_page_token.as_deref(), Some("n"));
    assert!(ml.next_sync_token.is_none());
}

#[test]
fn list_events_default_query() {
    let p = ListEventsParams::default();
    let r = list_events_request(&p);
    assert_eq!(r.path, "/calendars/primary/events");
    assert_eq!(pairs(&r.query), vec![("maxResults", "20"), ("singleEvents", "true"), ("orderBy", "startTime")]);
}

#[test]
fn list_events_window_and_encoding() {
    let mut p = ListEventsParams::default();
    p.calendar_id = "team cal@group.calendar.google.com".to_string();
    p.time_min = Some("2025-01-01T00:00:00Z".to_string());
    p.page_token = Some("pt".to_string());
    p.single_events = false;
    let r = list_events_request(&p);
    assert_eq!(r.path, "/calendars/team%20cal%40group.calendar.google.com/events");
    assert_eq!(
        pairs(&r.query),
        vec![("maxResults", "20"), ("singleEvents", "false"), ("timeMin", "2025-01-01T00:00:00Z"), ("pageToken", "pt")]
    );
}

#[test]
fn sync_token_excludes_window() {
    let mut p = ListEventsParams::default();
    p.sync_token = Some("s1".to_string());
    p.time_min = Some("x".to_string());
    p.time_max = Some("y".to_string());
    p.page_token = Some("z".to_string());
    let r = list_events_request(&p);
    assert_eq!(pairs(&r.query), vec![("maxResults", "20"), ("singleEvents", "true"), ("syncToken", "s1")]);
    assert_eq!(list_calendars_request().path, "/users/me/calendarList");
}

fn params(start: &str) -> CreateEventParams {
    CreateEventParams {
        calendar_id: "primary".to_string(),
        summary: "Lunch".to_string(),
        start: start.to_string(),
        end: "2025-02-02".to_string(),
        description: None,
        location: Some("Cafe".to_string()),
        attendees: vec!["g1@x.com".to_string(), "g2@x.com".to_string()],
        time_zone: Some("Europe/Paris".to_string()),
    }
}

#[test]
fn all_day_event_uses_dates() {
    let e = build_event(params("2025-02-01"), Some("me@x.com".to_string()), "meet-1".to_string());
    let start = e.start.unwrap();
    assert_eq!(start.date.as_deref(), Some("2025-02-01"));
    assert!(start.date_time.is_none());
    assert!(start.time_zone.is_none());
    assert_eq!(e.end.unwrap().date.as_deref(), Some("2025-02-02"));
    assert_eq!(e.attendees.len(), 3);
    assert_eq!(e.attendees[0].response_status.as_deref(), Some("needsAction"));
    assert_eq!(e.attendees[2].email, "me@x.com");
    assert_eq!(e.attendees[2].response_status.as_deref(), Some("accepted"));
    let cr = e.conference_data.unwrap().create_request.unwrap();
    assert_eq!(cr.request_id, "meet-1");
    assert_eq!(cr.conference_solution_key.unwrap().solution_type, "hangoutsMeet");
}

#[test]
fn timed_event_uses_date_times() {
    let e = build_event(params("2025-02-01T10:00:00"), None, "r".to_string());
    let start = e.start.unwrap();
    assert!(start.date.is_none());
    assert_eq!(start.date_time.as_deref(), Some("2025-02-01T10:00:00"));
    assert_eq!(start.time_zone.as_deref(), Some("Europe/Paris"));
    let end = e.end.unwrap();
    assert_eq!(end.date_time.as_deref(), Some("2025-02-02"));
    assert_eq!(e.attendees.len(), 2);
    assert_eq!(e.summary.as_deref(), Some("Lunch"));
    assert_eq!(e.location.as_deref(), Some("Cafe"));
}

#[test]
fn create_path_and_patch() {
    assert_eq!(create_event_path("primary"), "/calendars/primary/events?conferenceDataVersion=1&sendUpdates=all");
    let mut created = sample_event("ev/1");
    created.attendees.push(Attendee { email: "me@x.com".to_string(), optional: false, response_status: Some("needsAction".to_string()) });
    created.attendees.push(Attendee { email: "b@x.com".to_string(), optional: false, response_status: Some("declined".to_string()) });
    let (path, statuses) = organizer_patch(&created, "primary", &Some("me@x.com".to_string())).unwrap();
    assert_eq!(path, "/calendars/primary/events/ev%2F1?sendUpdates=none");
    let s: Vec<(&str, &str)> = statuses.iter().map(|(a, b)| (a.as_str(), b.as_str())).collect();
    assert_eq!(s, vec![("a@x.com", "needsAction"), ("me@x.com", "accepted"), ("b@x.com", "declined")]);
    assert!(organizer_patch(&created, "primary", &None).is_none());
    created.id = None;
    assert!(organizer_patch(&created, "primary", &Some("me@x.com".to_string())).is_none());
}

#[test]
fn request_ids() {
    assert_eq!(request_id_from_nanos(255), "meet-00000000000000ff");
    assert_eq!(request_id_from_nanos(0), "meet-0000000000000000");
    assert_eq!(request_id_from_nanos(0x1234_5678_9abc_def0_1), "meet-123456789abcdef01");
    let id = generate_request_id();
    assert!(id.starts_with("meet-"));
    assert!(id.len() >= 21);
    assert!(id[5..].chars().all(|c| c.is_ascii_hexdigit() && !c.is_ascii_uppercase()));
}
