//! Google Calendar events: the library's event types, the requests it sends
//! (addresses, bodies, error messages) and how answers become events.

use vstd::prelude::*;
use vstd::string::*;
use vstd::utf8::encode_utf8;
use crate::text::{
    all_digits, append_chars, chars_of, contains_seq, contains_str, parse_u32_chars,
    parse_u32_seq, replace_chars, replace_seq, string_of, trim_chars, trim_seq, words_of,
    words_seq, lowercase, lowercased,
};
use crate::dates::{
    CalendarDate, LocalDateTime, add_days, date_exists, date_text, format_date, local_shifted,
    local_to_utc, parse_date, parsed_date, prev_date_spec, next_date_spec, rfc3339_text,
    shift_local, utc_of_local, utc_rfc3339, valid_date, valid_local, valid_ymd, now_utc,
    local_of_utc, utc_to_local,
};

verus! {

/// An event as the application shows it.
#[derive(Clone, Debug, PartialEq, Eq)]
pub struct CalendarEvent {
    pub id: String,
    pub title: String,
    /// RFC 3339 for timed events, `YYYY-MM-DD` for all-day events.
    pub start: String,
    pub end: String,
    pub description: Option<String>,
    pub location: Option<String>,
    pub is_all_day: bool,
    /// E-mail addresses of the participants.
    pub attendees: Option<Vec<String>>,
}

/// An event to create, or the new contents of an event to update.
#[derive(Clone, Debug, PartialEq, Eq)]
pub struct CreateEventRequest {
    pub title: String,
    /// RFC 3339 for timed events, `YYYY-MM-DD` for all-day events.
    pub start: String,
    pub end: String,
    pub description: Option<String>,
    pub location: Option<String>,
    pub is_all_day: bool,
    /// E-mail addresses of the participants.
    pub attendees: Option<Vec<String>>,
}

/// Start or end of an event as Google Calendar sends it.
#[derive(Clone, Debug, PartialEq, Eq)]
pub struct GoogleDateTime {
    /// RFC 3339 date-time, for timed events.
    pub date_time: Option<String>,
    /// `YYYY-MM-DD`, for all-day events.
    pub date: Option<String>,
}

/// A participant as Google Calendar sends it.
#[derive(Clone, Debug, PartialEq, Eq)]
pub struct GoogleAttendee {
    pub email: String,
    pub display_name: Option<String>,
    pub response_status: Option<String>,
}

/// An event as Google Calendar sends it.
#[derive(Clone, Debug, PartialEq, Eq)]
pub struct GoogleEvent {
    pub id: String,
    pub summary: String,
    pub start: GoogleDateTime,
    pub end: GoogleDateTime,
    pub description: Option<String>,
    pub location: Option<String>,
    pub attendees: Option<Vec<GoogleAttendee>>,
}

// ------------------------------------------------------------------
// Views
// ------------------------------------------------------------------

/// The view of an optional string.
pub open spec fn opt_view(o: Option<String>) -> Option<Seq<char>> {
    match o {
        Some(s) => Some(s@),
        None => None,
    }
}

/// The views of a list of strings.
pub open spec fn strings_view(v: Seq<String>) -> Seq<Seq<char>> {
    v.map_values(|s: String| s@)
}

/// The views of an optional list of strings.
pub open spec fn opt_strings_view(o: Option<Vec<String>>) -> Option<Seq<Seq<char>>> {
    match o {
        Some(v) => Some(strings_view(v@)),
        None => None,
    }
}

/// A copy of an optional string.
pub fn clone_opt_string(o: &Option<String>) -> (r: Option<String>)
    ensures
        opt_view(r) == opt_view(*o),
{
    match o {
        Some(s) => Some(s.clone()),
        None => None,
    }
}

/// A copy of a list of strings.
pub fn clone_strings(v: &Vec<String>) -> (r: Vec<String>)
    ensures
        strings_view(r@) == strings_view(v@),
{
    let mut r: Vec<String> = Vec::new();
    let mut i: usize = 0;
    while i < v.len()
        invariant
            i <= v@.len(),
            r@.len() == i,
            forall|j: int| 0 <= j < i ==> #[trigger] r@[j]@ == v@[j]@,
        decreases v@.len() - i,
    {
        r.push(v[i].clone());
        i = i + 1;
    }
    assert(strings_view(r@) =~= strings_view(v@));
    r
}

/// A copy of an optional list of strings.
pub fn clone_opt_strings(o: &Option<Vec<String>>) -> (r: Option<Vec<String>>)
    ensures
        opt_strings_view(r) == opt_strings_view(*o),
{
    match o {
        Some(v) => Some(clone_strings(v)),
        None => None,
    }
}

// ------------------------------------------------------------------
// Addresses
// ------------------------------------------------------------------

/// Bytes that percent-encoding leaves as they are: ASCII letters and digits and `-._~`.
pub open spec fn is_url_safe(b: u8) -> bool {
    (48 <= b <= 57) || (65 <= b <= 90) || (97 <= b <= 122) || b == 45 || b == 46 || b == 95
        || b == 126
}

/// Upper-case hexadecimal digit for `n < 16`.
pub open spec fn hex_digit(n: u8) -> char {
    if n < 10 {
        (48 + n) as char
    } else {
        (55 + n) as char
    }
}

/// Percent-encoding of a byte sequence.
pub open spec fn percent_encode(b: Seq<u8>) -> Seq<char>
    decreases b.len(),
{
    if b.len() == 0 {
        seq![]
    } else {
        (if is_url_safe(b[0]) {
            seq![b[0] as char]
        } else {
            seq!['%', hex_digit(b[0] / 16), hex_digit(b[0] % 16)]
        }) + percent_encode(b.drop_first())
    }
}

/// `urlencoding::encode(s)`: every byte of the UTF-8 encoding of `s` other than
/// ASCII letters, digits and `-._~` written as `%` and two upper-case hex digits.
#[verifier::external_body]
pub(crate) fn url_encode(s: &str) -> (r: String)
    ensures
        r@ == percent_encode(encode_utf8(s@)),
{
    urlencoding::encode(s).into_owned()
}

/// Address of the primary calendar's events.
pub const EVENTS_URL: &'static str = "https://www.googleapis.com/calendar/v3/calendars/primary/events";

/// Address that lists the events between two RFC 3339 instants.
pub open spec fn events_list_url_spec(time_min: Seq<char>, time_max: Seq<char>) -> Seq<char> {
    "https://www.googleapis.com/calendar/v3/calendars/primary/events?timeMin="@ + percent_encode(
        encode_utf8(time_min),
    ) + "&timeMax="@ + percent_encode(encode_utf8(time_max))
        + "&singleEvents=true&orderBy=startTime&maxResults=500"@
}

/// Address that lists the events between two RFC 3339 instants, expanded and
/// ordered by start, at most 500.
pub fn events_list_url(time_min: &str, time_max: &str) -> (url: String)
    ensures
        url@ == events_list_url_spec(time_min@, time_max@),
{
    let mut v = chars_of("https://www.googleapis.com/calendar/v3/calendars/primary/events?timeMin=");
    let a = url_encode(time_min);
    let ac = chars_of(a.as_str());
    append_chars(&mut v, &ac);
    let mid = chars_of("&timeMax=");
    append_chars(&mut v, &mid);
    let b = url_encode(time_max);
    let bc = chars_of(b.as_str());
    append_chars(&mut v, &bc);
    let tail = chars_of("&singleEvents=true&orderBy=startTime&maxResults=500");
    append_chars(&mut v, &tail);
    string_of(&v)
}

/// Address of one event.
pub open spec fn event_url_spec(event_id: Seq<char>) -> Seq<char> {
    EVENTS_URL@ + "/"@ + percent_encode(encode_utf8(event_id))
}

/// Address of one event of the primary calendar.
pub fn event_url(event_id: &str) -> (url: String)
    ensures
        url@ == event_url_spec(event_id@),
{
    let mut v = chars_of(EVENTS_URL);
    let slash = chars_of("/");
    append_chars(&mut v, &slash);
    let e = url_encode(event_id);
    let ec = chars_of(e.as_str());
    append_chars(&mut v, &ec);
    string_of(&v)
}

/// The request names participants: invitations are then sent.
pub open spec fn notifies(attendees: Option<Vec<String>>) -> bool {
    attendees matches Some(a) && a@.len() > 0
}

/// `url`, asking Google to notify participants when the request names any.
pub open spec fn with_updates_spec(url: Seq<char>, attendees: Option<Vec<String>>) -> Seq<char> {
    if notifies(attendees) {
        url + "?sendUpdates=all"@
    } else {
        url
    }
}

/// `url` with `?sendUpdates=all` when `attendees` is a non-empty list.
pub fn with_send_updates(url: &str, attendees: &Option<Vec<String>>) -> (r: String)
    ensures
        r@ == with_updates_spec(url@, *attendees),
{
    let mut v = chars_of(url);
    match attendees {
        Some(a) => {
            if a.len() > 0 {
                let q = chars_of("?sendUpdates=all");
                append_chars(&mut v, &q);
            }
        },
        None => {},
    }
    string_of(&v)
}

/// Address to which a new event is posted.
pub fn create_event_url(attendees: &Option<Vec<String>>) -> (r: String)
    ensures
        r@ == with_updates_spec(EVENTS_URL@, *attendees),
{
    with_send_updates(EVENTS_URL, attendees)
}

/// Address to which changes of an event are sent.
pub fn update_event_url(event_id: &str, attendees: &Option<Vec<String>>) -> (r: String)
    ensures
        r@ == with_updates_spec(event_url_spec(event_id@), *attendees),
{
    let u = event_url(event_id);
    with_send_updates(u.as_str(), attendees)
}

// ------------------------------------------------------------------
// Error answers
// ------------------------------------------------------------------

/// The request that Google Calendar refused.
#[derive(PartialEq, Eq, Structural, Clone, Copy, Debug)]
pub enum CalendarOp {
    List,
    Get,
    Create,
    Delete,
    Update,
}

/// Message for a refused or expired token.
pub const INVALID_TOKEN_MESSAGE: &'static str = "Token inválido o expirado. Por favor, vuelve a autenticarte.";

/// Message for a calendar API that is not enabled.
pub const API_DISABLED_MESSAGE: &'static str = "❌ Google Calendar API no está habilitada.\n\nPor favor:\n1. Ve a Google Cloud Console\n2. Habilita 'Google Calendar API' en tu proyecto\n3. Espera 2-5 minutos para que se propague\n4. Vuelve a intentar\n\nVer: documentos/install/HABILITAR_CALENDAR_API.md";

/// Message for a refused creation.
pub const CREATE_FORBIDDEN_MESSAGE: &'static str = "Error 403: Permiso denegado para crear eventos en Google Calendar.\n\nPosibles causas:\n1. La Google Calendar API no está habilitada en tu proyecto.\n2. Los permisos OAuth no incluyen escritura (necesitas 'calendar' scope, no solo 'calendar.readonly').\n3. Vuelve a autenticarte con los permisos correctos.";

/// Message for a refused deletion.
pub const DELETE_FORBIDDEN_MESSAGE: &'static str = "Error 403: Permiso denegado para eliminar eventos en Google Calendar.";

/// Message for a refused update.
pub const UPDATE_FORBIDDEN_MESSAGE: &'static str = "Error 403: Permiso denegado para editar eventos en Google Calendar.";

/// Message for an event that no longer exists.
pub const EVENT_GONE_MESSAGE: &'static str = "Evento no encontrado. Puede que ya haya sido eliminado.";

/// The message for a refused request, from the HTTP status code, the status as
/// text (code and reason) and the body of the answer.
pub open spec fn api_error_spec(
    op: CalendarOp,
    code: u16,
    status: Seq<char>,
    body: Seq<char>,
    event_id: Seq<char>,
) -> Seq<char> {
    if code == 401 {
        INVALID_TOKEN_MESSAGE@
    } else if code == 403 && op == CalendarOp::List {
        API_DISABLED_MESSAGE@
    } else if code == 403 && op == CalendarOp::Create {
        CREATE_FORBIDDEN_MESSAGE@
    } else if code == 403 && op == CalendarOp::Delete {
        DELETE_FORBIDDEN_MESSAGE@
    } else if code == 403 && op == CalendarOp::Update {
        UPDATE_FORBIDDEN_MESSAGE@
    } else if code == 404 && op == CalendarOp::Get {
        "Evento con ID '"@ + event_id + "' no encontrado. Puede que ya haya sido eliminado."@
    } else if code == 404 && (op == CalendarOp::Delete || op == CalendarOp::Update) {
        EVENT_GONE_MESSAGE@
    } else {
        "Error de Google Calendar API: "@ + status + " - "@ + body
    }
}

/// The message for a request that Google Calendar answered with an error status.
pub fn api_error_message(
    op: CalendarOp,
    code: u16,
    status: &str,
    body: &str,
    event_id: &str,
) -> (m: String)
    ensures
        m@ == api_error_spec(op, code, status@, body@, event_id@),
{
    if code == 401 {
        String::from_str(INVALID_TOKEN_MESSAGE)
    } else if code == 403 && op == CalendarOp::List {
        String::from_str(API_DISABLED_MESSAGE)
    } else if code == 403 && op == CalendarOp::Create {
        String::from_str(CREATE_FORBIDDEN_MESSAGE)
    } else if code == 403 && op == CalendarOp::Delete {
        String::from_str(DELETE_FORBIDDEN_MESSAGE)
    } else if code == 403 && op == CalendarOp::Update {
        String::from_str(UPDATE_FORBIDDEN_MESSAGE)
    } else if code == 404 && op == CalendarOp::Get {
        let mut v = chars_of("Evento con ID '");
        let e = chars_of(event_id);
        append_chars(&mut v, &e);
        let t = chars_of("' no encontrado. Puede que ya haya sido eliminado.");
        append_chars(&mut v, &t);
        string_of(&v)
    } else if code == 404 && (op == CalendarOp::Delete || op == CalendarOp::Update) {
        String::from_str(EVENT_GONE_MESSAGE)
    } else {
        let mut v = chars_of("Error de Google Calendar API: ");
        let s = chars_of(status);
        append_chars(&mut v, &s);
        let d = chars_of(" - ");
        append_chars(&mut v, &d);
        let b = chars_of(body);
        append_chars(&mut v, &b);
        string_of(&v)
    }
}

// ------------------------------------------------------------------
// Request bodies
// ------------------------------------------------------------------

/// Time zone sent with timed events.
pub const EVENT_TIME_ZONE: &'static str = "America/Argentina/Buenos_Aires";

/// Start or end of an event as sent to Google Calendar.
#[derive(Clone, Debug, PartialEq, Eq)]
pub enum EventTime {
    /// All-day: a `YYYY-MM-DD` date.
    Date(String),
    /// Timed: an RFC 3339 date-time and the time zone it is read in.
    DateTime { date_time: String, time_zone: String },
}

/// The body of a create or update request.
#[derive(Clone, Debug, PartialEq, Eq)]
pub struct EventPayload {
    pub summary: String,
    pub start: EventTime,
    pub end: EventTime,
    /// Present only when given and not blank.
    pub description: Option<String>,
    /// Present only when given and not blank.
    pub location: Option<String>,
    /// Absent: participants are not touched; present: the full new list.
    pub attendees: Option<Vec<String>>,
}

/// Whether a body creates an event or changes one.
#[derive(PartialEq, Eq, Structural, Clone, Copy, Debug)]
pub enum PayloadKind {
    Create,
    Update,
}

/// The view of an event time: `(is_all_day, date or date-time, time zone)`.
pub open spec fn event_time_view(t: EventTime) -> (bool, Seq<char>, Seq<char>) {
    match t {
        EventTime::Date(d) => (true, d@, seq![]),
        EventTime::DateTime { date_time, time_zone } => (false, date_time@, time_zone@),
    }
}

/// A text that is given and not blank.
pub open spec fn kept_text(o: Option<Seq<char>>) -> Option<Seq<char>> {
    match o {
        Some(t) => if trim_seq(t).len() > 0 {
            Some(t)
        } else {
            None
        },
        None => None,
    }
}

/// The trimmed, non-blank e-mails of a list, in order.
pub open spec fn clean_emails(v: Seq<Seq<char>>) -> Seq<Seq<char>>
    decreases v.len(),
{
    if v.len() == 0 {
        seq![]
    } else {
        clean_emails(v.drop_last()) + (if trim_seq(v.last()).len() > 0 {
            seq![trim_seq(v.last())]
        } else {
            seq![]
        })
    }
}

/// Participants sent in a body. A creation sends the cleaned list only when it
/// is not empty; an update always sends the cleaned list it was given, so
/// that an empty list removes all participants and no list keeps them.
pub open spec fn sent_attendees(kind: PayloadKind, o: Option<Seq<Seq<char>>>) -> Option<
    Seq<Seq<char>>,
> {
    match o {
        Some(v) => if kind == PayloadKind::Update {
            Some(clean_emails(v))
        } else if v.len() > 0 && clean_emails(v).len() > 0 {
            Some(clean_emails(v))
        } else {
            None
        },
        None => None,
    }
}

/// The end sent for an all-day event: the day after the given `YYYY-MM-DD`
/// end (Google's end is exclusive), or the text as given when it is not such
/// a date. `None` when the day after does not exist for chrono.
pub open spec fn all_day_end(end: Seq<char>) -> Option<Seq<char>> {
    match parsed_date(end, "%Y-%m-%d"@) {
        Some(d) => match next_date_spec(d) {
            Some(n) => Some(date_text(n)),
            None => None,
        },
        None => Some(end),
    }
}

/// The body built from a request, when it can be built.
pub open spec fn payload_matches(p: EventPayload, req: CreateEventRequest, kind: PayloadKind) -> bool {
    &&& p.summary@ == req.title@
    &&& event_time_view(p.start) == (if req.is_all_day {
        (true, req.start@, Seq::<char>::empty())
    } else {
        (false, req.start@, EVENT_TIME_ZONE@)
    })
    &&& event_time_view(p.end) == (if req.is_all_day {
        (true, all_day_end(req.end@)->0, Seq::<char>::empty())
    } else {
        (false, req.end@, EVENT_TIME_ZONE@)
    })
    &&& opt_view(p.description) == kept_text(opt_view(req.description))
    &&& opt_view(p.location) == kept_text(opt_view(req.location))
    &&& opt_strings_view(p.attendees) == sent_attendees(kind, opt_strings_view(req.attendees))
}

/// For an all-day request whose end is a date as `%Y-%m-%d` writes it, the
/// body is built and its end is the next day.
pub open spec fn sends_day_after(req: CreateEventRequest, r: Option<EventPayload>) -> bool {
    forall|d: CalendarDate|
        req.is_all_day && valid_date(d) && req.end@ == date_text(d) && #[trigger] next_date_spec(d)
            is Some ==> (r matches Some(p) && event_time_view(p.end) == (
            true,
            date_text(next_date_spec(d)->0),
            Seq::<char>::empty(),
        ))
}

/// A given, non-blank text.
fn keep_text(o: &Option<String>) -> (r: Option<String>)
    ensures
        opt_view(r) == kept_text(opt_view(*o)),
{
    match o {
        Some(t) => {
            let c = chars_of(t.as_str());
            let tr = trim_chars(&c);
            if tr.len() > 0 {
                Some(t.clone())
            } else {
                None
            }
        },
        None => None,
    }
}

/// The trimmed, non-blank e-mails of a list.
pub fn clean_email_list(v: &Vec<String>) -> (r: Vec<String>)
    ensures
        strings_view(r@) == clean_emails(strings_view(v@)),
{
    let mut r: Vec<String> = Vec::new();
    let mut i: usize = 0;
    while i < v.len()
        invariant
            i <= v@.len(),
            strings_view(r@) == clean_emails(strings_view(v@.take(i as int))),
        decreases v@.len() - i,
    {
        let c = chars_of(v[i].as_str());
        let t = trim_chars(&c);
        let ghost prev = strings_view(r@);
        if t.len() > 0 {
            r.push(string_of(&t));
        }
        proof {
            let w = strings_view(v@.take(i + 1));
            assert(w.drop_last() =~= strings_view(v@.take(i as int)));
            assert(w.last() == v@[i as int]@);
            if t@.len() > 0 {
                assert(strings_view(r@) =~= prev + seq![t@]);
            } else {
                assert(strings_view(r@) =~= prev + Seq::<Seq<char>>::empty());
            }
        }
        i = i + 1;
    }
    assert(v@.take(v@.len() as int) =~= v@);
    r
}

/// The body of a request to create (`Create`) or change (`Update`) an event:
/// `None` exactly when an all-day end is chrono's last date, where adding a
/// day overflows.
pub fn build_event_payload(req: &CreateEventRequest, kind: PayloadKind) -> (r: Option<
    EventPayload,
>)
    ensures
        r is None <==> (req.is_all_day && all_day_end(req.end@) is None),
        r matches Some(p) ==> payload_matches(p, *req, kind),
        sends_day_after(*req, r),
{
    let start = if req.is_all_day {
        EventTime::Date(req.start.clone())
    } else {
        EventTime::DateTime {
            date_time: req.start.clone(),
            time_zone: String::from_str(EVENT_TIME_ZONE),
        }
    };
    let end = if req.is_all_day {
        match parse_date(req.end.as_str(), "%Y-%m-%d") {
            Some(d) => match add_days(d, 1) {
                Some(n) => EventTime::Date(format_date(n)),
                None => {
                    return None;
                },
            },
            None => EventTime::Date(req.end.clone()),
        }
    } else {
        EventTime::DateTime {
            date_time: req.end.clone(),
            time_zone: String::from_str(EVENT_TIME_ZONE),
        }
    };
    let description = keep_text(&req.description);
    let location = keep_text(&req.location);
    let attendees = match &req.attendees {
        Some(list) => {
            let cleaned = clean_email_list(list);
            if kind == PayloadKind::Update {
                Some(cleaned)
            } else if list.len() > 0 && cleaned.len() > 0 {
                Some(cleaned)
            } else {
                None
            }
        },
        None => None,
    };
    Some(EventPayload { summary: req.title.clone(), start, end, description, location, attendees })
}

// ------------------------------------------------------------------
// Answers
// ------------------------------------------------------------------

/// Which request an event came back from.
#[derive(PartialEq, Eq, Structural, Clone, Copy, Debug)]
pub enum AnswerKind {
    /// From a listing: the description is cleaned of HTML.
    Listed,
    /// From a single-event lookup: taken as it is.
    Fetched,
    /// From a creation or update: an all-day end is moved back one day.
    Written,
}

/// An event is all-day when its start has a date and no date-time.
pub open spec fn is_all_day_spec(start: GoogleDateTime) -> bool {
    start.date_time is None && start.date is Some
}

/// Start or end text: the date-time, else the date, else `fallback`.
pub open spec fn time_text(t: GoogleDateTime, fallback: Seq<char>) -> Seq<char> {
    match t.date_time {
        Some(s) => s@,
        None => match t.date {
            Some(d) => d@,
            None => fallback,
        },
    }
}

/// The replacements applied to a listed description, in order.
pub open spec fn html_cleaned(d: Seq<char>) -> Seq<char> {
    let a = replace_seq(d, "<html>"@, ""@);
    let b = replace_seq(a, "</html>"@, ""@);
    let c = replace_seq(b, "<head>"@, ""@);
    let e = replace_seq(c, "</head>"@, ""@);
    let f = replace_seq(e, "<body>"@, ""@);
    let g = replace_seq(f, "</body>"@, ""@);
    let h = replace_seq(
        g,
        "<meta http-equiv=\"Content-Type\" content=\"text/html; charset=utf-8\">"@,
        ""@,
    );
    let i = replace_seq(h, "<br>"@, "\n"@);
    let j = replace_seq(i, "<br/>"@, "\n"@);
    let k = replace_seq(j, "<br />"@, "\n"@);
    let l = replace_seq(k, "&nbsp;"@, " "@);
    let m = replace_seq(l, "&amp;"@, "&"@);
    let n = replace_seq(m, "&lt;"@, "<"@);
    let o = replace_seq(n, "&gt;"@, ">"@);
    let p = replace_seq(o, "&quot;"@, "\""@);
    trim_seq(p)
}

/// A listed description: cleaned of basic HTML and trimmed; none when nothing is left.
pub open spec fn sanitized_description(o: Option<Seq<char>>) -> Option<Seq<char>> {
    match o {
        Some(d) => if html_cleaned(d).len() > 0 {
            Some(html_cleaned(d))
        } else {
            None
        },
        None => None,
    }
}

/// The e-mails of the participants.
pub open spec fn attendee_emails(o: Option<Vec<GoogleAttendee>>) -> Option<Seq<Seq<char>>> {
    match o {
        Some(v) => Some(v@.map_values(|a: GoogleAttendee| a.email@)),
        None => None,
    }
}

/// The end text of an event that came back from a creation or update: an
/// all-day `YYYY-MM-DD` end moved back one day. `None` when there is no day before.
pub open spec fn written_end(t: GoogleDateTime, fallback: Seq<char>) -> Option<Seq<char>> {
    match t.date_time {
        Some(s) => Some(s@),
        None => match t.date {
            Some(d) => match parsed_date(d@, "%Y-%m-%d"@) {
                Some(x) => match prev_date_spec(x) {
                    Some(p) => Some(date_text(p)),
                    None => None,
                },
                None => Some(d@),
            },
            None => Some(fallback),
        },
    }
}

/// The time texts used when Google sends no start or no end: now, and one
/// hour from now; `None` when one hour from now does not exist for chrono.
pub open spec fn fallback_texts(now: LocalDateTime) -> Option<(Seq<char>, Seq<char>)> {
    match local_shifted(now, 3600, 0) {
        Some(later) => Some((rfc3339_text(now), rfc3339_text(later))),
        None => None,
    }
}

/// The event shown for a Google event, with the fallback texts `fb`.
pub open spec fn converted_matches(
    out: CalendarEvent,
    ev: GoogleEvent,
    kind: AnswerKind,
    fb: (Seq<char>, Seq<char>),
) -> bool {
    &&& out.id@ == ev.id@
    &&& out.title@ == ev.summary@
    &&& out.start@ == time_text(ev.start, fb.0)
    &&& out.end@ == (if kind == AnswerKind::Written {
        written_end(ev.end, fb.1)->0
    } else {
        time_text(ev.end, fb.1)
    })
    &&& opt_view(out.description) == (if kind == AnswerKind::Listed {
        sanitized_description(opt_view(ev.description))
    } else {
        opt_view(ev.description)
    })
    &&& opt_view(out.location) == opt_view(ev.location)
    &&& out.is_all_day == is_all_day_spec(ev.start)
    &&& opt_strings_view(out.attendees) == attendee_emails(ev.attendees)
}

/// Cleans a listed description of basic HTML and trims it.
pub fn sanitize_description(o: &Option<String>) -> (r: Option<String>)
    ensures
        opt_view(r) == sanitized_description(opt_view(*o)),
{
    match o {
        Some(d) => {
            let s = chars_of(d.as_str());
            proof {
                reveal_strlit("<html>");
                reveal_strlit("</html>");
                reveal_strlit("<head>");
                reveal_strlit("</head>");
                reveal_strlit("<body>");
                reveal_strlit("</body>");
                reveal_strlit(
                    "<meta http-equiv=\"Content-Type\" content=\"text/html; charset=utf-8\">",
                );
                reveal_strlit("<br>");
                reveal_strlit("<br/>");
                reveal_strlit("<br />");
                reveal_strlit("&nbsp;");
                reveal_strlit("&amp;");
                reveal_strlit("&lt;");
                reveal_strlit("&gt;");
                reveal_strlit("&quot;");
            }
            let s = replace_chars(&s, "<html>", "");
            let s = replace_chars(&s, "</html>", "");
            let s = replace_chars(&s, "<head>", "");
            let s = replace_chars(&s, "</head>", "");
            let s = replace_chars(&s, "<body>", "");
            let s = replace_chars(&s, "</body>", "");
            let s = replace_chars(
                &s,
                "<meta http-equiv=\"Content-Type\" content=\"text/html; charset=utf-8\">",
                "",
            );
            let s = replace_chars(&s, "<br>", "\n");
            let s = replace_chars(&s, "<br/>", "\n");
            let s = replace_chars(&s, "<br />", "\n");
            let s = replace_chars(&s, "&nbsp;", " ");
            let s = replace_chars(&s, "&amp;", "&");
            let s = replace_chars(&s, "&lt;", "<");
            let s = replace_chars(&s, "&gt;", ">");
            let s = replace_chars(&s, "&quot;", "\"");
            let t = trim_chars(&s);
            if t.len() == 0 {
                None
            } else {
                Some(string_of(&t))
            }
        },
        None => None,
    }
}

/// The e-mails of a list of participants.
fn emails_of(o: &Option<Vec<GoogleAttendee>>) -> (r: Option<Vec<String>>)
    ensures
        opt_strings_view(r) == attendee_emails(*o),
{
    match o {
        Some(v) => {
            let mut r: Vec<String> = Vec::new();
            let mut i: usize = 0;
            while i < v.len()
                invariant
                    i <= v@.len(),
                    r@.len() == i,
                    forall|j: int| 0 <= j < i ==> #[trigger] r@[j]@ == v@[j].email@,
                decreases v@.len() - i,
            {
                r.push(v[i].email.clone());
                i = i + 1;
            }
            assert(strings_view(r@) =~= v@.map_values(|a: GoogleAttendee| a.email@));
            Some(r)
        },
        None => None,
    }
}

/// The start or end text: date-time, else date, else the fallback.
fn pick_time(t: &GoogleDateTime, fallback: &String) -> (r: String)
    ensures
        r@ == time_text(*t, fallback@),
{
    match &t.date_time {
        Some(s) => s.clone(),
        None => match &t.date {
            Some(d) => d.clone(),
            None => fallback.clone(),
        },
    }
}

/// For an answer whose end is only a date as `%Y-%m-%d` writes it, the event
/// is shown and its end is the day before.
pub open spec fn reads_day_before(ev: GoogleEvent, r: Option<CalendarEvent>) -> bool {
    forall|n: CalendarDate|
        valid_date(n) && ev.end.date_time is None && ev.end.date is Some && ev.end.date->0@
            == date_text(n) && #[trigger] prev_date_spec(n) is Some ==> (r matches Some(out)
            && out.end@ == date_text(prev_date_spec(n)->0))
}

/// The event to show for an event Google sent back, given the texts to use
/// for a missing start (now) and a missing end (an hour from now).
pub fn convert_google_event(
    ev: &GoogleEvent,
    kind: AnswerKind,
    fallback_start: &String,
    fallback_end: &String,
) -> (r: Option<CalendarEvent>)
    ensures
        r is None <==> (kind == AnswerKind::Written && written_end(ev.end, fallback_end@) is None),
        r matches Some(out) ==> converted_matches(out, *ev, kind, (fallback_start@, fallback_end@)),
        kind == AnswerKind::Written ==> reads_day_before(*ev, r),
{
    let is_all_day = ev.start.date_time.is_none() && ev.start.date.is_some();
    let start = pick_time(&ev.start, fallback_start);
    let end = if kind == AnswerKind::Written {
        match &ev.end.date_time {
            Some(s) => s.clone(),
            None => match &ev.end.date {
                Some(d) => match parse_date(d.as_str(), "%Y-%m-%d") {
                    Some(x) => match add_days(x, -1) {
                        Some(p) => format_date(p),
                        None => {
                            return None;
                        },
                    },
                    None => d.clone(),
                },
                None => fallback_end.clone(),
            },
        }
    } else {
        pick_time(&ev.end, fallback_end)
    };
    let description = if kind == AnswerKind::Listed {
        sanitize_description(&ev.description)
    } else {
        clone_opt_string(&ev.description)
    };
    Some(
        CalendarEvent {
            id: ev.id.clone(),
            title: ev.summary.clone(),
            start,
            end,
            description,
            location: clone_opt_string(&ev.location),
            is_all_day,
            attendees: emails_of(&ev.attendees),
        },
    )
}

/// The fallback texts at time `now`: `now` and one hour later in RFC 3339.
pub fn fallback_times(now: LocalDateTime) -> (r: Option<(String, String)>)
    requires
        valid_local(now),
    ensures
        r is None <==> fallback_texts(now) is None,
        r matches Some(p) ==> fallback_texts(now) == Some((p.0@, p.1@)),
{
    match shift_local(now, 3600, 0) {
        Some(later) => Some((utc_rfc3339(now), utc_rfc3339(later))),
        None => None,
    }
}

/// Google sent a date-time or a date for this start or end.
pub open spec fn has_time(t: GoogleDateTime) -> bool {
    t.date_time is Some || t.date is Some
}

/// `out` is the event shown for `ev` with the fallback texts `fb`: `None`
/// exactly when a written all-day end has no day before it.
pub open spec fn converted_with(
    out: Option<CalendarEvent>,
    ev: GoogleEvent,
    kind: AnswerKind,
    fb: (Seq<char>, Seq<char>),
) -> bool {
    match out {
        Some(o) => converted_matches(o, ev, kind, fb),
        None => kind == AnswerKind::Written && written_end(ev.end, fb.1) is None,
    }
}

/// The event to show for an event Google sent back. The clock is read only
/// when Google sends no start or no end: the missing start is then the
/// current time and the missing end an hour later.
pub fn convert_google_event_now(ev: &GoogleEvent, kind: AnswerKind) -> (r: Option<CalendarEvent>)
    ensures
        has_time(ev.start) && has_time(ev.end) ==> converted_with(
            r,
            *ev,
            kind,
            (Seq::<char>::empty(), Seq::<char>::empty()),
        ),
        !(has_time(ev.start) && has_time(ev.end)) ==> exists|now: LocalDateTime|
            valid_local(now) && match #[trigger] fallback_texts(now) {
                Some(fb) => converted_with(r, *ev, kind, fb),
                None => r is None,
            },
{
    let present = (ev.start.date_time.is_some() || ev.start.date.is_some()) && (
    ev.end.date_time.is_some() || ev.end.date.is_some());
    if present {
        let none = String::new();
        return convert_google_event(ev, kind, &none, &none);
    }
    let now = now_utc();
    match fallback_times(now) {
        Some((a, b)) => {
            let r = convert_google_event(ev, kind, &a, &b);
            assert(fallback_texts(now) == Some((a@, b@)));
            assert(converted_with(r, *ev, kind, (a@, b@)));
            r
        },
        None => {
            assert(fallback_texts(now) is None);
            None
        },
    }
}

// ------------------------------------------------------------------
// The listing window
// ------------------------------------------------------------------

/// Offset of the local time zone (UTC-3), in seconds east of UTC.
pub const LOCAL_OFFSET_SECONDS: i32 = -10800;

/// Midnight at the start of a date.
pub open spec fn midnight(d: CalendarDate) -> LocalDateTime {
    LocalDateTime { date: d, hour: 0, minute: 0, second: 0, nanosecond: 0 }
}

/// The local (UTC-3) date at the UTC date-time `now`.
pub open spec fn local_date_spec(now: LocalDateTime) -> Option<CalendarDate> {
    match local_of_utc(now, LOCAL_OFFSET_SECONDS) {
        Some(l) => Some(l.date),
        None => None,
    }
}

/// The local (UTC-3) date at the UTC date-time `now`.
pub fn local_date_at(now: LocalDateTime) -> (r: Option<CalendarDate>)
    requires
        valid_local(now),
    ensures
        r == local_date_spec(now),
        r matches Some(d) ==> valid_date(d),
{
    match utc_to_local(now, LOCAL_OFFSET_SECONDS) {
        Some(l) => Some(l.date),
        None => None,
    }
}

/// Today's local (UTC-3) date by the clock: the local date at the valid
/// instant the clock gave; `None` only where that instant has no local date.
pub fn current_local_date() -> (r: Option<CalendarDate>)
    ensures
        r matches Some(d) ==> valid_date(d),
        exists|now: LocalDateTime| valid_local(now) && #[trigger] local_date_spec(now) == r,
{
    let now = now_utc();
    let r = local_date_at(now);
    assert(valid_local(now) && local_date_spec(now) == r);
    r
}

/// The listing window, as RFC 3339 texts: around a target date, from one day
/// before its local midnight (UTC-3) to two days after; without a target, from
/// seven days before `now` to `days_range` days (60 when not given) after it.
/// `None` where chrono cannot represent a bound.
pub open spec fn search_window_spec(
    target: Option<CalendarDate>,
    days_range: Option<i64>,
    now: LocalDateTime,
) -> Option<(Seq<char>, Seq<char>)> {
    match target {
        Some(d) => {
            let base = match utc_of_local(midnight(d), LOCAL_OFFSET_SECONDS) {
                Some(u) => u,
                None => midnight(d),
            };
            match (local_shifted(base, -86400i64, 0u32), local_shifted(base, 172800i64, 0u32)) {
                (Some(a), Some(b)) => Some((rfc3339_text(a), rfc3339_text(b))),
                _ => None,
            }
        },
        None => {
            let days: int = match days_range {
                Some(n) => n as int,
                None => 60,
            };
            if i64::MIN <= days * 86400 <= i64::MAX {
                match (
                    local_shifted(now, -604800i64, 0u32),
                    local_shifted(now, (days * 86400) as i64, 0u32),
                ) {
                    (Some(a), Some(b)) => Some((rfc3339_text(a), rfc3339_text(b))),
                    _ => None,
                }
            } else {
                None
            }
        },
    }
}

/// The window of a listing; `None` where the original computation overflows.
pub fn search_window(target: Option<CalendarDate>, days_range: Option<i64>, now: LocalDateTime) -> (r:
    Option<(String, String)>)
    requires
        valid_local(now),
        target matches Some(d) ==> valid_date(d),
    ensures
        r is None <==> search_window_spec(target, days_range, now) is None,
        r matches Some(p) ==> search_window_spec(target, days_range, now) == Some((p.0@, p.1@)),
{
    match target {
        Some(d) => {
            let m = LocalDateTime { date: d, hour: 0, minute: 0, second: 0, nanosecond: 0 };
            let base = match local_to_utc(m, LOCAL_OFFSET_SECONDS) {
                Some(u) => u,
                None => m,
            };
            let a = shift_local(base, -86400, 0);
            let b = shift_local(base, 172800, 0);
            match (a, b) {
                (Some(a), Some(b)) => Some((utc_rfc3339(a), utc_rfc3339(b))),
                _ => None,
            }
        },
        None => {
            let days: i64 = match days_range {
                Some(n) => n,
                None => 60,
            };
            match days.checked_mul(86400) {
                Some(secs) => {
                    let a = shift_local(now, -604800, 0);
                    let b = shift_local(now, secs, 0);
                    match (a, b) {
                        (Some(a), Some(b)) => Some((utc_rfc3339(a), utc_rfc3339(b))),
                        _ => None,
                    }
                },
                None => None,
            }
        },
    }
}

/// The listing window around `target_date` at the clock's current time: the
/// window `search_window` gives at the valid instant the clock gave; `None`
/// only where chrono cannot represent a bound of that window.
pub fn search_window_now(target: Option<CalendarDate>, days_range: Option<i64>) -> (r: Option<
    (String, String),
>)
    requires
        target matches Some(d) ==> valid_date(d),
    ensures
        exists|now: LocalDateTime|
            valid_local(now) && #[trigger] search_window_spec(target, days_range, now) == match r {
                Some(p) => Some((p.0@, p.1@)),
                None => None,
            },
{
    let now = now_utc();
    let r = search_window(target, days_range, now);
    assert(valid_local(now) && search_window_spec(target, days_range, now) == match r {
        Some(p) => Some((p.0@, p.1@)),
        None => None::<(Seq<char>, Seq<char>)>,
    });
    r
}

// ------------------------------------------------------------------
// Dates mentioned in an instruction
// ------------------------------------------------------------------

/// Pieces of `s` between occurrences of `c`, scanning from `i`, the current
/// piece starting at `start`.
pub open spec fn split_from(s: Seq<char>, c: char, start: int, i: int) -> Seq<Seq<char>>
    decreases s.len() - i,
{
    if i >= s.len() {
        seq![s.subrange(start, s.len() as int)]
    } else if s[i] == c {
        seq![s.subrange(start, i)] + split_from(s, c, i + 1, i + 1)
    } else {
        split_from(s, c, start, i + 1)
    }
}

/// `str::split(c)`: the pieces between occurrences of `c`, empty ones included.
pub open spec fn split_seq(s: Seq<char>, c: char) -> Seq<Seq<char>> {
    split_from(s, c, 0, 0)
}

/// The date a word names when it reads `DD-MM-YYYY` or `DD/MM/YYYY` with a
/// day of 1 to 31, a month of 1 to 12, a year of 2000 to 2100, and the day exists.
pub open spec fn word_date(w: Seq<char>) -> Option<CalendarDate> {
    if contains_seq(w, "-"@) || contains_seq(w, "/"@) {
        let parts = if contains_seq(w, "-"@) {
            split_seq(w, '-')
        } else {
            split_seq(w, '/')
        };
        if parts.len() == 3 {
            match (parse_u32_seq(parts[0]), parse_u32_seq(parts[1]), parse_u32_seq(parts[2])) {
                (Some(day), Some(month), Some(year)) => if 1 <= day <= 31 && 1 <= month <= 12
                    && 2000 <= year <= 2100 && valid_ymd(year as int, month as int, day as int) {
                    Some(CalendarDate { year: year as i32, month, day })
                } else {
                    None
                },
                _ => None,
            }
        } else {
            None
        }
    } else {
        None
    }
}

/// The date named by the first word that names one.
pub open spec fn first_word_date(ws: Seq<Seq<char>>) -> Option<CalendarDate>
    decreases ws.len(),
{
    if ws.len() == 0 {
        None
    } else {
        match word_date(ws[0]) {
            Some(d) => Some(d),
            None => first_word_date(ws.drop_first()),
        }
    }
}

/// The first date written `DD-MM-YYYY` or `DD/MM/YYYY` among the words of an
/// (already lower-cased) instruction.
pub open spec fn prompt_date(lower: Seq<char>) -> Option<CalendarDate> {
    first_word_date(words_seq(lower))
}

/// `str::split(c)`.
pub fn split_chars(s: &Vec<char>, c: char) -> (out: Vec<Vec<char>>)
    ensures
        out@.map_values(|l: Vec<char>| l@) == split_seq(s@, c),
{
    let n = s.len();
    let mut out: Vec<Vec<char>> = Vec::new();
    let mut start: usize = 0;
    let mut i: usize = 0;
    while i < n
        invariant
            n == s@.len(),
            start <= i <= n,
            split_seq(s@, c) == out@.map_values(|l: Vec<char>| l@) + split_from(
                s@,
                c,
                start as int,
                i as int,
            ),
        decreases n - i,
    {
        if s[i] == c {
            let piece = slice_piece(s, start, i);
            let ghost before = out@.map_values(|l: Vec<char>| l@);
            out.push(piece);
            assert(out@.map_values(|l: Vec<char>| l@) =~= before.push(piece@));
            assert(before + (seq![piece@] + split_from(s@, c, i + 1, i + 1)) =~= before.push(
                piece@,
            ) + split_from(s@, c, i + 1, i + 1));
            start = i + 1;
        }
        i = i + 1;
    }
    let piece = slice_piece(s, start, n);
    let ghost before = out@.map_values(|l: Vec<char>| l@);
    out.push(piece);
    assert(out@.map_values(|l: Vec<char>| l@) =~= before.push(piece@));
    assert(before + seq![piece@] =~= before.push(piece@));
    out
}

fn slice_piece(s: &Vec<char>, lo: usize, hi: usize) -> (out: Vec<char>)
    requires
        lo <= hi <= s@.len(),
    ensures
        out@ == s@.subrange(lo as int, hi as int),
{
    crate::text::slice_chars(s, lo, hi)
}

/// The date a single word names, if any.
fn date_of_word(w: &Vec<char>) -> (r: Option<CalendarDate>)
    ensures
        r == word_date(w@),
{
    let has_dash = contains_str(w, "-");
    let has_slash = contains_str(w, "/");
    if !(has_dash || has_slash) {
        return None;
    }
    let parts = if has_dash {
        split_chars(w, '-')
    } else {
        split_chars(w, '/')
    };
    let ghost pv = parts@.map_values(|l: Vec<char>| l@);
    if parts.len() != 3 {
        return None;
    }
    assert(pv[0] == parts@[0]@ && pv[1] == parts@[1]@ && pv[2] == parts@[2]@);
    let day = parse_u32_chars(&parts[0]);
    let month = parse_u32_chars(&parts[1]);
    let year = parse_u32_chars(&parts[2]);
    match (day, month, year) {
        (Some(day), Some(month), Some(year)) => {
            if 1 <= day && day <= 31 && 1 <= month && month <= 12 && 2000 <= year && year <= 2100 {
                if date_exists(year as i32, month, day) {
                    Some(CalendarDate { year: year as i32, month, day })
                } else {
                    None
                }
            } else {
                None
            }
        },
        _ => None,
    }
}

/// The first date in an already lower-cased instruction.
pub fn date_from_lowered(lower: &str) -> (r: Option<CalendarDate>)
    ensures
        r == prompt_date(lower@),
        r matches Some(d) ==> valid_date(d) && 2000 <= d.year <= 2100,
{
    let l = chars_of(lower);
    let ws = words_of(&l);
    let ghost all = ws@.map_values(|w: Vec<char>| w@);
    assert(all.subrange(0, all.len() as int) =~= all);
    let mut i: usize = 0;
    while i < ws.len()
        invariant
            i <= ws@.len(),
            all == ws@.map_values(|w: Vec<char>| w@),
            all == words_seq(lower@),
            first_word_date(all) == first_word_date(all.subrange(i as int, all.len() as int)),
        decreases ws@.len() - i,
    {
        let d = date_of_word(&ws[i]);
        let ghost rest = all.subrange(i as int, all.len() as int);
        assert(rest[0] == ws@[i as int]@);
        if d.is_some() {
            return d;
        }
        assert(rest.drop_first() =~= all.subrange(i + 1, all.len() as int));
        i = i + 1;
    }
    assert(all.subrange(i as int, all.len() as int) =~= Seq::<Seq<char>>::empty());
    None
}

/// The first date an instruction mentions as `DD-MM-YYYY` or `DD/MM/YYYY`,
/// read in its lower-cased text.
pub fn extract_date_from_prompt(instruction: &str) -> (r: Option<CalendarDate>)
    ensures
        r == prompt_date(lowercased(instruction@)),
        r matches Some(d) ==> valid_date(d) && 2000 <= d.year <= 2100,
{
    let lower = lowercase(instruction);
    date_from_lowered(lower.as_str())
}

/// Every date found in an instruction is a real day of the years 2000 to 2100.
pub proof fn law_prompt_dates_are_real_days(lower: Seq<char>)
    ensures
        prompt_date(lower) matches Some(d) ==> valid_date(d) && 2000 <= d.year <= 2100
            && 1 <= d.month <= 12 && 1 <= d.day <= 31,
{
    lemma_first_word_date_valid(words_seq(lower));
}

proof fn lemma_first_word_date_valid(ws: Seq<Seq<char>>)
    ensures
        first_word_date(ws) matches Some(d) ==> valid_date(d) && 2000 <= d.year <= 2100,
    decreases ws.len(),
{
    if ws.len() > 0 && word_date(ws[0]) is None {
        lemma_first_word_date_valid(ws.drop_first());
    }
}

/// Creating an all-day event and reading it back gives the end it was asked
/// for: `build_event_payload` sends the day after the requested end
/// (`sends_day_after`), Google echoes that date, and `convert_google_event`
/// moves a written end back one day (`reads_day_before`). Both premises are
/// what those two functions ensure of their results.
pub proof fn law_all_day_end_round_trip(
    req: CreateEventRequest,
    sent: Option<EventPayload>,
    answer: GoogleEvent,
    back: Option<CalendarEvent>,
    d: CalendarDate,
)
    requires
        sends_day_after(req, sent),
        reads_day_before(answer, back),
        req.is_all_day,
        valid_date(d),
        req.end@ == date_text(d),
        next_date_spec(d) is Some,
        sent is Some ==> answer.end.date_time is None && answer.end.date is Some && answer.end.date->0@
            == event_time_view(sent->0.end).1,
    ensures
        back matches Some(b) && b.end@ == req.end@,
{
    crate::dates::law_prev_undoes_next(d);
    let n = next_date_spec(d)->0;
    assert(valid_date(n) && prev_date_spec(n) == Some(d));
    assert(sent is Some && event_time_view(sent->0.end) == (
        true,
        date_text(n),
        Seq::<char>::empty(),
    )) by {
        assert(req.is_all_day && valid_date(d) && req.end@ == date_text(d));
    }
    assert(answer.end.date->0@ == date_text(n));
    assert(back matches Some(b) && b.end@ == date_text(d)) by {
        assert(valid_date(n) && answer.end.date_time is None && answer.end.date is Some
            && answer.end.date->0@ == date_text(n) && prev_date_spec(n) is Some);
    }
}

} // verus!
