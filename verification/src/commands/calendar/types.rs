//! Calendar API resources.

use vstd::prelude::*;
use crate::utils::text::clone_opt_string;

verus! {

/// A calendar event.
pub struct Event {
    pub id: Option<String>,
    pub summary: Option<String>,
    pub description: Option<String>,
    pub location: Option<String>,
    pub start: Option<EventDateTime>,
    pub end: Option<EventDateTime>,
    pub status: Option<String>,
    pub attendees: Vec<Attendee>,
    pub organizer: Option<Organizer>,
    pub html_link: Option<String>,
    pub created: Option<String>,
    pub updated: Option<String>,
    pub recurrence: Option<Vec<String>>,
    pub conference_data: Option<ConferenceData>,
    pub hangout_link: Option<String>,
}

/// Start or end of an event: a date for all-day events, a date-time
/// (RFC 3339) for timed ones.
pub struct EventDateTime {
    pub date: Option<String>,
    pub date_time: Option<String>,
    pub time_zone: Option<String>,
}

impl Clone for EventDateTime {
    fn clone(&self) -> (r: Self)
        ensures
            r == *self,
    {
        EventDateTime {
            date: clone_opt_string(&self.date),
            date_time: clone_opt_string(&self.date_time),
            time_zone: clone_opt_string(&self.time_zone),
        }
    }
}

/// A copy of an optional date-time.
pub fn clone_opt_date_time(o: &Option<EventDateTime>) -> (r: Option<EventDateTime>)
    ensures
        r == *o,
{
    match o {
        Some(d) => Some(d.clone()),
        None => None,
    }
}

pub struct Attendee {
    pub email: String,
    pub optional: bool,
    pub response_status: Option<String>,
}

pub struct Organizer {
    pub email: Option<String>,
    pub display_name: Option<String>,
    pub is_self: Option<bool>,
}

pub struct ConferenceData {
    pub create_request: Option<CreateConferenceRequest>,
    pub entry_points: Option<Vec<EntryPoint>>,
    pub conference_solution: Option<ConferenceSolution>,
    pub conference_id: Option<String>,
}

pub struct CreateConferenceRequest {
    pub request_id: String,
    pub conference_solution_key: Option<ConferenceSolutionKey>,
    pub status: Option<ConferenceRequestStatus>,
}

/// Kind of conference to create (the API's `type` field).
pub struct ConferenceSolutionKey {
    pub solution_type: String,
}

pub struct ConferenceRequestStatus {
    pub status_code: String,
}

pub struct EntryPoint {
    pub entry_point_type: String,
    pub uri: String,
    pub label: Option<String>,
}

pub struct ConferenceSolution {
    pub name: Option<String>,
    pub icon_uri: Option<String>,
    pub key: Option<ConferenceSolutionKey>,
}

/// One page of events.
pub struct EventList {
    pub items: Vec<Event>,
    pub next_page_token: Option<String>,
    pub next_sync_token: Option<String>,
    pub summary: Option<String>,
    pub time_zone: Option<String>,
}

/// One page of the user's calendars.
pub struct CalendarList {
    pub items: Vec<CalendarListEntry>,
    pub next_page_token: Option<String>,
}

pub struct CalendarListEntry {
    pub id: String,
    pub summary: Option<String>,
    pub description: Option<String>,
    pub primary: Option<bool>,
    pub access_role: Option<String>,
}

/// An event reduced to what an agent needs most: no attendees, organizer,
/// description, location, link, timestamps or recurrence.
pub struct MinimalEvent {
    pub id: Option<String>,
    pub summary: Option<String>,
    pub start: Option<EventDateTime>,
    pub end: Option<EventDateTime>,
    pub status: Option<String>,
}

impl MinimalEvent {
    /// The minimal form of an event.
    pub open spec fn of(event: Event) -> MinimalEvent {
        MinimalEvent {
            id: event.id,
            summary: event.summary,
            start: event.start,
            end: event.end,
            status: event.status,
        }
    }

    pub fn from_event(event: &Event) -> (r: Self)
        ensures
            r == MinimalEvent::of(*event),
    {
        MinimalEvent {
            id: clone_opt_string(&event.id),
            summary: clone_opt_string(&event.summary),
            start: clone_opt_date_time(&event.start),
            end: clone_opt_date_time(&event.end),
            status: clone_opt_string(&event.status),
        }
    }
}

/// A page of minimal events.
pub struct MinimalEventList {
    pub items: Vec<MinimalEvent>,
    pub next_page_token: Option<String>,
    pub next_sync_token: Option<String>,
}

impl MinimalEventList {
    pub fn from_event_list(list: &EventList) -> (r: Self)
        ensures
            r.items@.len() == list.items@.len(),
            forall|i: int| 0 <= i < list.items@.len() ==> #[trigger] r.items@[i] == MinimalEvent::of(list.items@[i]),
            r.next_page_token == list.next_page_token,
            r.next_sync_token == list.next_sync_token,
    {
        let mut items: Vec<MinimalEvent> = Vec::new();
        for i in 0..list.items.len()
            invariant
                items@.len() == i,
                forall|j: int| 0 <= j < i ==> #[trigger] items@[j] == MinimalEvent::of(list.items@[j]),
        {
            items.push(MinimalEvent::from_event(&list.items[i]));
        }
        MinimalEventList {
            items,
            next_page_token: clone_opt_string(&list.next_page_token),
            next_sync_token: clone_opt_string(&list.next_sync_token),
        }
    }
}

} // verus!
