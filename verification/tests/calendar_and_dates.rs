use ofimatia::calendar::{
    api_error_message, build_event_payload, convert_google_event, create_event_url,
    event_url, events_list_url, extract_date_from_prompt, sanitize_description, search_window,
    update_event_url, convert_google_event_now, current_local_date, local_date_at, search_window_now, AnswerKind, CalendarOp, CreateEventRequest, EventTime, GoogleAttendee,
    GoogleDateTime, GoogleEvent, PayloadKind, EVENTS_URL, EVENT_GONE_MESSAGE,
    INVALID_TOKEN_MESSAGE, EVENT_TIME_ZONE,
};
use ofimatia::dates::{format_date, format_hms, format_hour_minute, CalendarDate, LocalDateTime};

fn date(year: i32, month: u32, day: u32) -> CalendarDate {
    CalendarDate { year, month, day }
}

fn at(d: CalendarDate, hour: u32, minute: u32) -> LocalDateTime {
    LocalDateTime { date: d, hour, minute, second: 0, nanosecond: 0 }
}

fn request(all_day: bool, start: &str, end: &str) -> CreateEventRequest {
    CreateEventRequest {
        title: "Reunión".to_string(),
        start: start.to_string(),
        end: end.to_string(),
        description: Some("  ".to_string()),
        location: Some("Oficina".to_string()),
        is_all_day: all_day,
        attendees: Some(vec![" a@b.com ".to_string(), "".to_string()]),
    }
}

fn google_event(start: GoogleDateTime, end: GoogleDateTime) -> GoogleEvent {
    GoogleEvent {
        id: "ev1".to_string(),
        summary: "Cumple".to_string(),
        start,
        end,
        description: Some("<b>hola</b><br>mundo&amp; ".to_string()),
        location: None,
        attendees: Some(vec![GoogleAttendee {
            email: "x@y.z".to_string(),
            display_name: None,
            response_status: Some("accepted".to_string()),
        }]),
    }
}

#[test]
fn dates_format_like_chrono() {
    assert_eq!(format_date(date(2024, 2, 5)), "2024-02-05");
    assert_eq!(format_date(date(12345, 1, 1)), "+12345-01-01");
    assert_eq!(format_date(date(-5, 1, 1)), "-0005-01-01");
    let l = LocalDateTime { date: date(2024, 1, 1), hour: 7, minute: 5, second: 9, nanosecond: 0 };
    assert_eq!(format_hour_minute(l), "07:05");
    assert_eq!(format_hms(l), "07:05:09");
}

#[test]
fn local_date_is_three_hours_behind_utc() {
    assert_eq!(local_date_at(at(date(2024, 5, 11), 1, 0)), Some(date(2024, 5, 10)));
    assert_eq!(local_date_at(at(date(2024, 5, 11), 3, 0)), Some(date(2024, 5, 11)));
    let today = current_local_date().unwrap();
    assert!(today.year >= 2024);
}

#[test]
fn all_day_end_crosses_month_and_leap_day() {
    let p = build_event_payload(&request(true, "2024-02-28", "2024-02-28"), PayloadKind::Create).unwrap();
    assert_eq!(p.end, EventTime::Date("2024-02-29".to_string()));
    let q = build_event_payload(&request(true, "2023-12-31", "2023-12-31"), PayloadKind::Create).unwrap();
    assert_eq!(q.end, EventTime::Date("2024-01-01".to_string()));
    let r = build_event_payload(&request(true, "2024-05-10", "mañana"), PayloadKind::Create).unwrap();
    assert_eq!(r.end, EventTime::Date("mañana".to_string()));
}

#[test]
fn written_end_goes_back_across_leap_day() {
    let ev = google_event(
        GoogleDateTime { date_time: None, date: Some("2024-02-29".to_string()) },
        GoogleDateTime { date_time: None, date: Some("2024-03-01".to_string()) },
    );
    let out = convert_google_event(&ev, AnswerKind::Written, &"now".to_string(), &"later".to_string()).unwrap();
    assert_eq!(out.end, "2024-02-29");
    let fetched = convert_google_event(&ev, AnswerKind::Fetched, &"now".to_string(), &"later".to_string()).unwrap();
    assert_eq!(fetched.end, "2024-03-01");
}

#[test]
fn window_now_is_a_window() {
    let (a, b) = search_window_now(Some(date(2024, 2, 20)), None).unwrap();
    assert_eq!(a, "2024-02-19T03:00:00+00:00");
    assert_eq!(b, "2024-02-22T03:00:00+00:00");
    let (c, d) = search_window_now(None, Some(0)).unwrap();
    assert!(c < d);
}

#[test]
fn listing_address_encodes_bounds() {
    let u = events_list_url("2024-01-01T00:00:00+00:00", "2024-02-01T00:00:00+00:00");
    assert_eq!(
        u,
        "https://www.googleapis.com/calendar/v3/calendars/primary/events?timeMin=2024-01-01T00%3A00%3A00%2B00%3A00&timeMax=2024-02-01T00%3A00%3A00%2B00%3A00&singleEvents=true&orderBy=startTime&maxResults=500"
    );
}

#[test]
fn event_addresses() {
    assert_eq!(event_url("abc 1"), format!("{}/abc%201", EVENTS_URL));
    assert_eq!(event_url("ñ"), format!("{}/%C3%B1", EVENTS_URL));
    assert_eq!(create_event_url(&None), EVENTS_URL);
    assert_eq!(
        create_event_url(&Some(vec!["a@b.c".to_string()])),
        format!("{}?sendUpdates=all", EVENTS_URL)
    );
    assert_eq!(update_event_url("x", &Some(vec![])), format!("{}/x", EVENTS_URL));
    assert_eq!(
        update_event_url("x", &Some(vec!["a@b.c".to_string()])),
        format!("{}/x?sendUpdates=all", EVENTS_URL)
    );
}

#[test]
fn api_error_messages_by_status() {
    assert_eq!(api_error_message(CalendarOp::List, 401, "401", "", ""), INVALID_TOKEN_MESSAGE);
    assert_eq!(
        api_error_message(CalendarOp::Get, 404, "404 Not Found", "", "e1"),
        "Evento con ID 'e1' no encontrado. Puede que ya haya sido eliminado."
    );
    assert_eq!(api_error_message(CalendarOp::Delete, 404, "404", "", "e1"), EVENT_GONE_MESSAGE);
    assert_eq!(
        api_error_message(CalendarOp::List, 500, "500 Internal Server Error", "boom", ""),
        "Error de Google Calendar API: 500 Internal Server Error - boom"
    );
    assert!(api_error_message(CalendarOp::Create, 403, "403", "", "").starts_with("Error 403: Permiso denegado para crear"));
    assert!(api_error_message(CalendarOp::List, 403, "403", "", "").starts_with("❌ Google Calendar API no está habilitada."));
}

#[test]
fn all_day_payload_sends_next_day_as_end() {
    let p = build_event_payload(&request(true, "2024-05-10", "2024-05-10"), PayloadKind::Create).unwrap();
    assert_eq!(p.summary, "Reunión");
    assert_eq!(p.start, EventTime::Date("2024-05-10".to_string()));
    assert_eq!(p.end, EventTime::Date("2024-05-11".to_string()));
    assert_eq!(p.description, None);
    assert_eq!(p.location, Some("Oficina".to_string()));
    assert_eq!(p.attendees, Some(vec!["a@b.com".to_string()]));
}

#[test]
fn timed_payload_carries_time_zone() {
    let p = build_event_payload(
        &request(false, "2024-05-10T12:00:00+00:00", "2024-05-10T13:00:00+00:00"),
        PayloadKind::Update,
    )
    .unwrap();
    assert_eq!(
        p.end,
        EventTime::DateTime {
            date_time: "2024-05-10T13:00:00+00:00".to_string(),
            time_zone: EVENT_TIME_ZONE.to_string(),
        }
    );
}

#[test]
fn empty_attendees_clear_on_update_only() {
    let mut r = request(true, "2024-05-10", "2024-05-10");
    r.attendees = Some(vec![]);
    let up = build_event_payload(&r, PayloadKind::Update).unwrap();
    assert_eq!(up.attendees, Some(vec![]));
    let cr = build_event_payload(&r, PayloadKind::Create).unwrap();
    assert_eq!(cr.attendees, None);
    r.attendees = None;
    assert_eq!(build_event_payload(&r, PayloadKind::Update).unwrap().attendees, None);
}

#[test]
fn written_all_day_event_reads_back_its_end() {
    let ev = google_event(
        GoogleDateTime { date_time: None, date: Some("2024-05-10".to_string()) },
        GoogleDateTime { date_time: None, date: Some("2024-05-11".to_string()) },
    );
    let out = convert_google_event(&ev, AnswerKind::Written, &"now".to_string(), &"later".to_string()).unwrap();
    assert!(out.is_all_day);
    assert_eq!(out.start, "2024-05-10");
    assert_eq!(out.end, "2024-05-10");
    assert_eq!(out.attendees, Some(vec!["x@y.z".to_string()]));
    assert_eq!(out.description, Some("<b>hola</b><br>mundo&amp; ".to_string()));
}

#[test]
fn listed_event_cleans_description() {
    let ev = google_event(
        GoogleDateTime { date_time: Some("2024-05-10T09:00:00-03:00".to_string()), date: None },
        GoogleDateTime { date_time: None, date: None },
    );
    let out = convert_google_event(&ev, AnswerKind::Listed, &"now".to_string(), &"later".to_string()).unwrap();
    assert!(!out.is_all_day);
    assert_eq!(out.start, "2024-05-10T09:00:00-03:00");
    assert_eq!(out.end, "later");
    assert_eq!(out.description, Some("<b>hola</b>\nmundo&".to_string()));
    assert_eq!(sanitize_description(&Some("<br> &nbsp;".to_string())), None);
}

#[test]
fn prompt_dates_are_found() {
    assert_eq!(extract_date_from_prompt("Mover el evento del 20-02-2024 al 24-02-2026"), Some(date(2024, 2, 20)));
    assert_eq!(extract_date_from_prompt("evento el día 05/03/2025"), Some(date(2025, 3, 5)));
    assert_eq!(extract_date_from_prompt("el 31-02-2024 no existe"), None);
    assert_eq!(extract_date_from_prompt("en 1999: 01-01-1999"), None);
    assert_eq!(extract_date_from_prompt("sin fecha"), None);
}

#[test]
fn search_window_around_a_date() {
    let now = at(date(2024, 5, 10), 12, 0);
    let (a, b) = search_window(Some(date(2024, 2, 20)), None, now).unwrap();
    assert_eq!(a, "2024-02-19T03:00:00+00:00");
    assert_eq!(b, "2024-02-22T03:00:00+00:00");
    let (c, d) = search_window(None, None, now).unwrap();
    assert_eq!(c, "2024-05-03T12:00:00+00:00");
    assert_eq!(d, "2024-07-09T12:00:00+00:00");
    let (_, f) = search_window(None, Some(1), now).unwrap();
    assert_eq!(f, "2024-05-11T12:00:00+00:00");
}

#[test]
fn all_day_end_survives_a_round_trip() {
    let req = request(true, "2024-02-28", "2024-02-29");
    let sent = build_event_payload(&req, PayloadKind::Create).unwrap();
    let sent_end = match sent.end {
        EventTime::Date(d) => d,
        EventTime::DateTime { .. } => panic!("expected a date"),
    };
    assert_eq!(sent_end, "2024-03-01");
    let answer = google_event(
        GoogleDateTime { date_time: None, date: Some("2024-02-28".to_string()) },
        GoogleDateTime { date_time: None, date: Some(sent_end) },
    );
    let back = convert_google_event(&answer, AnswerKind::Written, &"n".to_string(), &"l".to_string()).unwrap();
    assert_eq!(back.end, req.end);
}

#[test]
fn local_date_outside_chrono_range_is_none() {
    assert_eq!(local_date_at(at(date(-262143, 1, 1), 0, 0)), None);
    assert_eq!(local_date_at(at(date(-262143, 1, 2), 0, 0)), Some(date(-262143, 1, 1)));
}

#[test]
fn event_with_both_bounds_needs_no_clock() {
    let ev = google_event(
        GoogleDateTime { date_time: None, date: Some("2024-05-10".to_string()) },
        GoogleDateTime { date_time: None, date: Some("2024-05-12".to_string()) },
    );
    let out = convert_google_event_now(&ev, AnswerKind::Written).unwrap();
    assert_eq!(out.start, "2024-05-10");
    assert_eq!(out.end, "2024-05-11");
    let listed = convert_google_event_now(&ev, AnswerKind::Listed).unwrap();
    assert_eq!(listed.end, "2024-05-12");
}

#[test]
fn all_day_end_round_trip_with_signed_years() {
    let req = request(true, "+12345-01-01", "+12345-12-31");
    let sent = build_event_payload(&req, PayloadKind::Create).unwrap();
    assert_eq!(sent.end, EventTime::Date("+12346-01-01".to_string()));
    let answer = google_event(
        GoogleDateTime { date_time: None, date: Some("+12345-01-01".to_string()) },
        GoogleDateTime { date_time: None, date: Some("+12346-01-01".to_string()) },
    );
    let back = convert_google_event(&answer, AnswerKind::Written, &"n".to_string(), &"l".to_string()).unwrap();
    assert_eq!(back.end, "+12345-12-31");
    let old = request(true, "-0005-03-01", "-0005-03-01");
    let sent_old = build_event_payload(&old, PayloadKind::Create).unwrap();
    assert_eq!(sent_old.end, EventTime::Date("-0005-03-02".to_string()));
}
