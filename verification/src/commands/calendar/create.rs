//! Creating events: the event sent, the identifier of its Meet request, and
//! the follow-up that accepts the invitation for the organizer.

use vstd::prelude::*;
use vstd::string::*;
use crate::client::encoding::{url_encode, url_encoded};
use crate::client::request::concat3;
use crate::utils::text::{chars_of, contains, contains_from, push_char};
use super::types::{
    Attendee, ConferenceData, ConferenceSolutionKey, CreateConferenceRequest, Event, EventDateTime,
};

verus! {

/// What the caller gives to create an event.
pub struct CreateEventParams {
    pub calendar_id: String,
    pub summary: String,
    /// RFC 3339 date-time, or `YYYY-MM-DD` for an all-day event.
    pub start: String,
    pub end: String,
    pub description: Option<String>,
    pub location: Option<String>,
    pub attendees: Vec<String>,
    pub time_zone: Option<String>,
}

/// An event is all-day when its start has no time part (no `T`).
pub open spec fn is_all_day(start: Seq<char>) -> bool {
    !contains(start, seq!['T'])
}

/// The start or end of the event: a date for an all-day event, otherwise a
/// date-time in the given time zone.
pub open spec fn date_time_for(value: String, all_day: bool, time_zone: Option<String>) -> EventDateTime {
    if all_day {
        EventDateTime { date: Some(value), date_time: None, time_zone: None }
    } else {
        EventDateTime { date: None, date_time: Some(value), time_zone }
    }
}

/// `a` is an attendee with the given address and response status, not optional.
pub open spec fn is_attendee(a: Attendee, email: Seq<char>, status: Seq<char>) -> bool {
    &&& a.email@ == email
    &&& !a.optional
    &&& a.response_status matches Some(s) && s@ == status
}

/// The event that is sent to create: the summary, description, location and
/// times of the parameters, the invited guests (awaiting a response), then the
/// organizer (accepted) where known, and a request for a Meet conference.
pub open spec fn is_event_for(
    e: Event,
    params: CreateEventParams,
    organizer: Option<String>,
    request_id: String,
) -> bool {
    let all_day = is_all_day(params.start@);
    let guests = params.attendees@;
    &&& e.id is None
    &&& e.summary == Some(params.summary)
    &&& e.description == params.description
    &&& e.location == params.location
    &&& e.start == Some(date_time_for(params.start, all_day, params.time_zone))
    &&& e.end == Some(date_time_for(params.end, all_day, params.time_zone))
    &&& e.status is None
    &&& e.organizer is None
    &&& e.html_link is None
    &&& e.created is None
    &&& e.updated is None
    &&& e.recurrence is None
    &&& e.hangout_link is None
    &&& e.attendees@.len() == guests.len() + if organizer is Some { 1int } else { 0int }
    &&& forall|i: int| 0 <= i < guests.len() ==> is_attendee(#[trigger] e.attendees@[i], guests[i]@, "needsAction"@)
    &&& organizer matches Some(o) ==> is_attendee(e.attendees@[guests.len() as int], o@, "accepted"@)
    &&& e.conference_data matches Some(cd) && {
        &&& cd.entry_points is None
        &&& cd.conference_solution is None
        &&& cd.conference_id is None
        &&& cd.create_request matches Some(cr) && {
            &&& cr.request_id == request_id
            &&& cr.status is None
            &&& cr.conference_solution_key matches Some(k) && k.solution_type@ == "hangoutsMeet"@
        }
    }
}

fn attendee(email: String, status: &str) -> (a: Attendee)
    ensures
        a.email == email,
        is_attendee(a, email@, status@),
{
    Attendee { email, optional: false, response_status: Some(String::from_str(status)) }
}

fn date_time(value: String, all_day: bool, time_zone: Option<String>) -> (d: EventDateTime)
    ensures
        d == date_time_for(value, all_day, time_zone),
{
    if all_day {
        EventDateTime { date: Some(value), date_time: None, time_zone: None }
    } else {
        EventDateTime { date: None, date_time: Some(value), time_zone }
    }
}

/// Builds the event to create.
pub fn build_event(params: CreateEventParams, organizer: Option<String>, request_id: String) -> (e: Event)
    ensures
        is_event_for(e, params, organizer, request_id),
{
    let ghost p = params;
    let start_chars = chars_of(params.start.as_str());
    let t = chars_of("T");
    assert(start_chars@.skip(0) =~= start_chars@);
    proof { reveal_strlit("T"); }
    assert(t@ =~= seq!['T']);
    let all_day = !contains_from(&start_chars, 0, &t);
    let CreateEventParams { calendar_id: _, summary, start, end, description, location, attendees: guests, time_zone } = params;
    let tz2 = match &time_zone {
        Some(z) => Some(z.clone()),
        None => None,
    };
    let start_dt = date_time(start, all_day, time_zone);
    let end_dt = date_time(end, all_day, tz2);
    let mut attendees: Vec<Attendee> = Vec::new();
    let mut i: usize = 0;
    while i < guests.len()
        invariant
            guests@ == p.attendees@,
            i <= guests@.len(),
            attendees@.len() == i,
            forall|j: int| 0 <= j < i ==> is_attendee(#[trigger] attendees@[j], guests@[j]@, "needsAction"@),
        decreases guests@.len() - i,
    {
        attendees.push(attendee(guests[i].clone(), "needsAction"));
        i = i + 1;
    }
    match &organizer {
        Some(email) => {
            attendees.push(attendee(email.clone(), "accepted"));
        },
        None => {},
    }
    let conference_data = ConferenceData {
        create_request: Some(CreateConferenceRequest {
            request_id,
            conference_solution_key: Some(ConferenceSolutionKey {
                solution_type: String::from_str("hangoutsMeet"),
            }),
            status: None,
        }),
        entry_points: None,
        conference_solution: None,
        conference_id: None,
    };
    Event {
        id: None,
        summary: Some(summary),
        description,
        location,
        start: Some(start_dt),
        end: Some(end_dt),
        status: None,
        attendees,
        organizer: None,
        html_link: None,
        created: None,
        updated: None,
        recurrence: None,
        conference_data: Some(conference_data),
        hangout_link: None,
    }
}

/// The path an event is created at: Meet links enabled, guests notified.
pub open spec fn create_event_path_of(calendar_id: Seq<char>) -> Seq<char> {
    "/calendars/"@ + url_encoded(calendar_id) + "/events?conferenceDataVersion=1&sendUpdates=all"@
}

pub fn create_event_path(calendar_id: &str) -> (p: String)
    ensures
        p@ == create_event_path_of(calendar_id@),
{
    let enc = url_encode(calendar_id);
    concat3("/calendars/", enc.as_str(), "/events?conferenceDataVersion=1&sendUpdates=all")
}

/// The response status sent back for an attendee in the follow-up: accepted
/// for the organizer, otherwise the status the created event reports, or
/// `needsAction` where it reports none.
pub open spec fn patched_status(a: Attendee, organizer: Seq<char>) -> Seq<char> {
    if a.email@ == organizer {
        "accepted"@
    } else {
        match a.response_status {
            Some(s) => s@,
            None => "needsAction"@,
        }
    }
}

/// The follow-up that accepts the invitation for the organizer (the API
/// ignores response statuses on creation): its path, notifying nobody, and
/// each attendee's address and response status. There is one only where the
/// created event has an id and the organizer is known.
pub fn organizer_patch(created: &Event, calendar_id: &str, organizer: &Option<String>) -> (r: Option<(String, Vec<(String, String)>)>)
    ensures
        r is Some <==> (created.id is Some && organizer is Some),
        r matches Some((path, statuses)) ==> {
            &&& path@ == "/calendars/"@ + url_encoded(calendar_id@) + "/events/"@ + url_encoded(
                created.id->0@,
            ) + "?sendUpdates=none"@
            &&& statuses@.len() == created.attendees@.len()
            &&& forall|i: int|
                0 <= i < statuses@.len() ==> {
                    &&& (#[trigger] statuses@[i]).0@ == created.attendees@[i].email@
                    &&& statuses@[i].1@ == patched_status(created.attendees@[i], organizer->0@)
                }
        },
{
    match (&created.id, organizer) {
        (Some(event_id), Some(org_email)) => {
            let mut statuses: Vec<(String, String)> = Vec::new();
            let mut i: usize = 0;
            while i < created.attendees.len()
                invariant
                    i <= created.attendees@.len(),
                    statuses@.len() == i,
                    forall|j: int|
                        0 <= j < i ==> {
                            &&& (#[trigger] statuses@[j]).0@ == created.attendees@[j].email@
                            &&& statuses@[j].1@ == patched_status(created.attendees@[j], org_email@)
                        },
                decreases created.attendees@.len() - i,
            {
                let a = &created.attendees[i];
                let status = if a.email.eq(org_email) {
                    String::from_str("accepted")
                } else {
                    match &a.response_status {
                        Some(s) => s.clone(),
                        None => String::from_str("needsAction"),
                    }
                };
                statuses.push((a.email.clone(), status));
                i = i + 1;
            }
            let cal = url_encode(calendar_id);
            let id = url_encode(event_id.as_str());
            let mut path = concat3("/calendars/", cal.as_str(), "/events/");
            path.append(id.as_str());
            path.append("?sendUpdates=none");
            Some((path, statuses))
        },
        _ => None,
    }
}

/// Lower-case hexadecimal digits of `n`, most significant first.
pub open spec fn hex_lower(n: nat) -> Seq<char>
    decreases n,
{
    if n < 16 {
        seq![hex_lower_digit(n)]
    } else {
        hex_lower(n / 16).push(hex_lower_digit(n % 16))
    }
}

pub open spec fn hex_lower_digit(d: nat) -> char {
    if d == 0 { '0' } else if d == 1 { '1' } else if d == 2 { '2' } else if d == 3 { '3' }
    else if d == 4 { '4' } else if d == 5 { '5' } else if d == 6 { '6' } else if d == 7 { '7' }
    else if d == 8 { '8' } else if d == 9 { '9' } else if d == 10 { 'a' } else if d == 11 { 'b' }
    else if d == 12 { 'c' } else if d == 13 { 'd' } else if d == 14 { 'e' } else { 'f' }
}

fn hex_digit_exec(d: u128) -> (c: char)
    requires
        d < 16,
    ensures
        c == hex_lower_digit(d as nat),
{
    if d == 0 { '0' } else if d == 1 { '1' } else if d == 2 { '2' } else if d == 3 { '3' }
    else if d == 4 { '4' } else if d == 5 { '5' } else if d == 6 { '6' } else if d == 7 { '7' }
    else if d == 8 { '8' } else if d == 9 { '9' } else if d == 10 { 'a' } else if d == 11 { 'b' }
    else if d == 12 { 'c' } else if d == 13 { 'd' } else if d == 14 { 'e' } else { 'f' }
}

fn hex_digits(n: u128) -> (v: Vec<char>)
    ensures
        v@ == hex_lower(n as nat),
    decreases n,
{
    if n < 16 {
        let mut v: Vec<char> = Vec::new();
        v.push(hex_digit_exec(n));
        assert(v@ =~= seq![hex_lower_digit(n as nat)]);
        v
    } else {
        let mut v = hex_digits(n / 16);
        v.push(hex_digit_exec(n % 16));
        v
    }
}

/// `format!("{:016x}", n)`: lower-case hex, padded with zeros to 16 digits.
pub open spec fn hex16(n: nat) -> Seq<char> {
    let d = hex_lower(n);
    if d.len() < 16 {
        Seq::new((16 - d.len()) as nat, |i: int| '0') + d
    } else {
        d
    }
}

/// The identifier of a Meet conference request made at time `nanos`
/// (nanoseconds since the Unix epoch): `meet-` and the time in hex.
pub open spec fn request_id_for(nanos: nat) -> Seq<char> {
    "meet-"@ + hex16(nanos)
}

pub fn request_id_from_nanos(nanos: u128) -> (s: String)
    ensures
        s@ == request_id_for(nanos as nat),
{
    let d = hex_digits(nanos);
    let mut s = String::from_str("meet-");
    let ghost prefix = s@;
    if d.len() < 16 {
        let pad = 16 - d.len();
        let mut k: usize = 0;
        while k < pad
            invariant
                k <= pad,
                s@ == prefix + Seq::new(k as nat, |i: int| '0'),
            decreases pad - k,
        {
            push_char(&mut s, '0');
            k = k + 1;
            assert(s@ =~= prefix + Seq::new(k as nat, |i: int| '0'));
        }
    }
    let ghost mid = s@;
    let mut k: usize = 0;
    while k < d.len()
        invariant
            k <= d@.len(),
            s@ == mid + d@.take(k as int),
        decreases d@.len() - k,
    {
        push_char(&mut s, d[k]);
        k = k + 1;
        assert(s@ =~= mid + d@.take(k as int));
    }
    assert(d@.take(k as int) =~= d@);
    assert(s@ =~= request_id_for(nanos as nat));
    s
}

/// Nanoseconds since the Unix epoch by the system clock
/// (`std::time::UNIX_EPOCH.elapsed()`), or `None` where the clock reads an
/// earlier time. Nothing is stated of the value: it is the clock's.
#[verifier::external_body]
fn nanos_since_epoch() -> (r: Option<u128>) {
    std::time::UNIX_EPOCH.elapsed().ok().map(|d| d.as_nanos())
}

/// A fresh identifier for a conference request: `meet-` and the current time
/// in nanoseconds, in hex (0 where the clock reads before the epoch).
pub fn generate_request_id() -> (s: String)
    ensures
        exists|n: u128| s@ == request_id_for(n as nat),
{
    let nanos = match nanos_since_epoch() {
        Some(n) => n,
        None => 0,
    };
    request_id_from_nanos(nanos)
}


proof fn lemma_hex_lower_nonempty(n: nat)
    ensures
        hex_lower(n).len() >= 1,
    decreases n,
{
    if n >= 16 {
        lemma_hex_lower_nonempty(n / 16);
    }
}

/// A conference request identifier is `meet-` followed by at least sixteen
/// hex digits.
pub proof fn request_id_shape(nanos: nat)
    ensures
        request_id_for(nanos).len() >= 21,
        request_id_for(nanos).take(5) == "meet-"@,
{
    reveal_strlit("meet-");
    lemma_hex_lower_nonempty(nanos);
    assert(request_id_for(nanos).take(5) =~= "meet-"@);
}

} // verus!
