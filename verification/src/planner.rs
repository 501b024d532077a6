//! The decisions behind an instruction in natural language: which events go to
//! the language model as context, which action its answer asks for, which
//! event an edit is about, and the request that creates or updates an event.
//!
//! Every step here computes on plain values; the caller fetches events, asks
//! the model and sends the requests in between.

use vstd::prelude::*;
use vstd::string::*;
use crate::text::{
    lowercase, lowercased,
    append_chars, chars_eq, chars_of, contains_seq, contains_str, decimal, decimal_chars,
    find_chars, find_seq, join_first, join_seq, push_str, slice_chars, string_of, take_at_most,
    utf8_len, utf8_len_capped,
};
use crate::dates::{
    CalendarDate, LocalDateTime, ZonedDateTime, add_days, date_text, days_added, days_between,
    days_from_to, format_date, format_hms, format_hour_minute, hms_text, hour_minute_text,
    local_parse_error, local_parsed, local_shifted, local_to_utc, parse_date, parse_local,
    parse_rfc3339, parsed_date, rfc3339_parsed, rfc3339_text, shift_by_span, shift_local,
    span_shifted, utc_of_local, utc_rfc3339, valid_date, valid_local, next_date_spec,
};
use crate::calendar::{
    CalendarEvent, CreateEventRequest, LOCAL_OFFSET_SECONDS, clone_opt_string, clone_opt_strings,
    opt_strings_view, opt_view, split_chars, split_seq,
};
use crate::assistant::{ParsedEvent, DELETE_ACTION, EDIT_ACTION};

verus! {

/// chrono format of a date.
pub const YMD: &'static str = "%Y-%m-%d";

/// chrono format of a date and a time to the minute.
pub const YMD_HM: &'static str = "%Y-%m-%d %H:%M";

/// chrono format of a date and a time to the second.
pub const YMD_HMS: &'static str = "%Y-%m-%d %H:%M:%S";

/// chrono format of a day-first date with slashes.
pub const DMY_SLASHED: &'static str = "%d/%m/%Y";

/// chrono format of a month-first date with slashes.
pub const MDY_SLASHED: &'static str = "%m/%d/%Y";

/// The model's word for a request it could not understand.
pub const ERROR_ACTION: &'static str = "error";

/// Start time of a timed event when none is known.
pub const DEFAULT_START_TIME: &'static str = "09:00";

/// End time of a new timed event when none is given.
pub const DEFAULT_END_TIME: &'static str = "10:00";

/// How many recent events go to the model when no date was mentioned.
pub const CONTEXT_EVENT_LIMIT: usize = 20;

/// Opens the answer for a model that asks for more information.
pub const NEEDS_INFO_HEAD: &'static str = "⚠️ La IA necesita más información: ";

/// Opens the answer for a mentioned date with no events.
pub const NO_EVENTS_ON_HEAD: &'static str = "⚠️ No encontré ningún evento el ";

/// Closes the answer for a mentioned date with no events.
pub const NO_EVENTS_ON_TAIL: &'static str = " en tu calendario. Por favor, verifica la fecha o menciona el título del evento.";

/// Answer after a deletion: there is no event to give back.
pub const DELETED_MESSAGE: &'static str = "Evento eliminado exitosamente";

/// Answer for a deletion that names no event.
pub const DELETE_NEEDS_ID_MESSAGE: &'static str = "Para eliminar un evento, se requiere el event_id. Por favor, menciona qué evento quieres eliminar.";

// ------------------------------------------------------------------
// Dates of events
// ------------------------------------------------------------------

/// The `YYYY-MM-DD` day of an event boundary: the text itself for an all-day
/// event, the local date of the RFC 3339 date-time otherwise; `None` when that
/// text does not parse.
pub open spec fn event_day(t: Seq<char>, all_day: bool) -> Option<Seq<char>> {
    if all_day {
        Some(t)
    } else {
        match rfc3339_parsed(t) {
            Some(z) => Some(date_text(z.local.date)),
            None => None,
        }
    }
}

/// `event_day`, with a fallback for a text that does not parse.
pub open spec fn day_or(t: Seq<char>, all_day: bool, fallback: Seq<char>) -> Seq<char> {
    match event_day(t, all_day) {
        Some(d) => d,
        None => fallback,
    }
}

/// The day an event starts on, empty when its start does not parse.
pub open spec fn start_day(e: CalendarEvent) -> Seq<char> {
    day_or(e.start@, e.is_all_day, Seq::empty())
}

/// Executable `event_day`.
pub fn event_day_of(t: &String, all_day: bool) -> (r: Option<String>)
    ensures
        opt_view(r) == event_day(t@, all_day),
{
    if all_day {
        Some(t.clone())
    } else {
        match parse_rfc3339(t.as_str()) {
            Some(z) => Some(format_date(z.local.date)),
            None => None,
        }
    }
}

/// Executable `day_or`.
pub fn day_or_else(t: &String, all_day: bool, fallback: &String) -> (r: String)
    ensures
        r@ == day_or(t@, all_day, fallback@),
{
    match event_day_of(t, all_day) {
        Some(d) => d,
        None => fallback.clone(),
    }
}

/// Executable `start_day`.
pub fn start_day_of(e: &CalendarEvent) -> (r: String)
    ensures
        r@ == start_day(*e),
{
    day_or_else(&e.start, e.is_all_day, &String::new())
}

// ------------------------------------------------------------------
// Context for the model
// ------------------------------------------------------------------

/// An event as the model sees it among the recent events.
#[derive(Clone, Debug, PartialEq, Eq)]
pub struct EventSummary {
    /// The id without the suffix of a recurring instance.
    pub id: String,
    pub original_id: String,
    pub title: String,
    pub start: String,
    pub end: String,
    /// `YYYY-MM-DD`.
    pub date: String,
    pub is_all_day: bool,
}

/// The id up to its first `_` (a recurring instance's series id), or all of it.
pub open spec fn base_id(id: Seq<char>) -> Seq<char> {
    match find_seq(id, "_"@) {
        Some(k) => id.subrange(0, k),
        None => id,
    }
}

/// `s` summarizes the event `e`.
pub open spec fn summarizes(s: EventSummary, e: CalendarEvent) -> bool {
    &&& s.id@ == base_id(e.id@)
    &&& s.original_id@ == e.id@
    &&& s.title@ == e.title@
    &&& s.start@ == e.start@
    &&& s.end@ == e.end@
    &&& s.date@ == day_or(e.start@, e.is_all_day, e.start@)
    &&& s.is_all_day == e.is_all_day
}

/// Executable `base_id`.
pub fn base_id_of(id: &String) -> (r: String)
    ensures
        r@ == base_id(id@),
{
    let v = chars_of(id.as_str());
    let u = chars_of("_");
    match find_chars(&v, &u) {
        Some(k) => {
            proof {
                crate::text::lemma_find_from_bounds(v@, u@, 0);
            }
            let p = slice_chars(&v, 0, k);
            string_of(&p)
        },
        None => id.clone(),
    }
}

/// The summary of an event given to the model.
pub fn summarize_event(e: &CalendarEvent) -> (s: EventSummary)
    ensures
        summarizes(s, *e),
{
    EventSummary {
        id: base_id_of(&e.id),
        original_id: e.id.clone(),
        title: e.title.clone(),
        start: e.start.clone(),
        end: e.end.clone(),
        date: day_or_else(&e.start, e.is_all_day, &e.start),
        is_all_day: e.is_all_day,
    }
}

/// The events that start on `day`, in order.
pub open spec fn events_on(evs: Seq<CalendarEvent>, day: Seq<char>) -> Seq<CalendarEvent>
    decreases evs.len(),
{
    if evs.len() == 0 {
        Seq::empty()
    } else if start_day(evs.last()) == day {
        events_on(evs.drop_last(), day).push(evs.last())
    } else {
        events_on(evs.drop_last(), day)
    }
}

/// The events the model sees: those on the mentioned date, or the first
/// `CONTEXT_EVENT_LIMIT` when no date was mentioned.
pub open spec fn context_selection(evs: Seq<CalendarEvent>, target: Option<CalendarDate>) -> Seq<
    CalendarEvent,
> {
    match target {
        Some(d) => events_on(evs, date_text(d)),
        None => take_at_most(evs, CONTEXT_EVENT_LIMIT as int),
    }
}

/// The summaries of the events the model sees, in order.
pub fn context_events(events: &Vec<CalendarEvent>, target: Option<CalendarDate>) -> (out: Vec<
    EventSummary,
>)
    ensures
        out@.len() == context_selection(events@, target).len(),
        forall|i: int|
            0 <= i < out@.len() ==> summarizes(
                #[trigger] out@[i],
                context_selection(events@, target)[i],
            ),
{
    let mut out: Vec<EventSummary> = Vec::new();
    match target {
        Some(d) => {
            let day = format_date(d);
            let mut i: usize = 0;
            while i < events.len()
                invariant
                    i <= events@.len(),
                    day@ == date_text(d),
                    out@.len() == events_on(events@.take(i as int), day@).len(),
                    forall|j: int|
                        0 <= j < out@.len() ==> summarizes(
                            #[trigger] out@[j],
                            events_on(events@.take(i as int), day@)[j],
                        ),
                decreases events@.len() - i,
            {
                let ghost before = events@.take(i as int);
                assert(events@.take(i + 1).drop_last() =~= before);
                assert(events@.take(i + 1).last() == events@[i as int]);
                let sd = start_day_of(&events[i]);
                if sd == day {
                    out.push(summarize_event(&events[i]));
                }
                i = i + 1;
            }
            assert(events@.take(events@.len() as int) =~= events@);
        },
        None => {
            let n = if events.len() < CONTEXT_EVENT_LIMIT {
                events.len()
            } else {
                CONTEXT_EVENT_LIMIT
            };
            assert(take_at_most(events@, CONTEXT_EVENT_LIMIT as int) =~= events@.take(n as int));
            let mut i: usize = 0;
            while i < n
                invariant
                    n <= events@.len(),
                    i <= n,
                    out@.len() == i,
                    forall|j: int| 0 <= j < i ==> summarizes(#[trigger] out@[j], events@[j]),
                decreases n - i,
            {
                out.push(summarize_event(&events[i]));
                i = i + 1;
            }
        },
    }
    out
}

/// The answer for a mentioned date on which the calendar has no events.
pub open spec fn no_events_on_message(d: CalendarDate) -> Seq<char> {
    NO_EVENTS_ON_HEAD@ + date_text(d) + NO_EVENTS_ON_TAIL@
}

/// Refuses an instruction that mentions a date on which the fetched events
/// are none; an instruction without a date, or a failed fetch, passes.
pub fn check_target_has_events(target: Option<CalendarDate>, events: &Option<Vec<CalendarEvent>>) -> (r:
    Result<(), String>)
    ensures
        r is Err <==> (target is Some && events is Some && events->0@.len() == 0),
        r matches Err(m) ==> m@ == no_events_on_message(target->0),
{
    match (target, events) {
        (Some(d), Some(v)) => {
            if v.len() == 0 {
                let mut out: Vec<char> = Vec::new();
                push_str(&mut out, NO_EVENTS_ON_HEAD);
                let dc = format_date(d);
                push_str(&mut out, dc.as_str());
                push_str(&mut out, NO_EVENTS_ON_TAIL);
                Err(string_of(&out))
            } else {
                Ok(())
            }
        },
        _ => Ok(()),
    }
}

// ------------------------------------------------------------------
// The action
// ------------------------------------------------------------------

/// What an instruction asks for.
#[derive(PartialEq, Eq, Structural, Clone, Copy, Debug)]
pub enum NlAction {
    Create,
    Edit,
    Delete,
}

/// The action of a parsed event other than `error`: `delete` and `edit` as
/// the model said; otherwise an edit when an original date was given, else a creation.
pub open spec fn chosen_action(p: ParsedEvent) -> NlAction {
    if opt_view(p.action) == Some(DELETE_ACTION@) {
        NlAction::Delete
    } else if opt_view(p.action) == Some(EDIT_ACTION@) {
        NlAction::Edit
    } else if p.original_date is Some {
        NlAction::Edit
    } else {
        NlAction::Create
    }
}

fn action_is(p: &ParsedEvent, word: &str) -> (b: bool)
    ensures
        b == (opt_view(p.action) == Some(word@)),
{
    match &p.action {
        Some(a) => {
            let ac = chars_of(a.as_str());
            let wc = chars_of(word);
            chars_eq(&ac, &wc)
        },
        None => false,
    }
}

/// The action to take; a model that answered `error` gets its title back as the message.
pub fn resolve_action(p: &ParsedEvent) -> (r: Result<NlAction, String>)
    ensures
        r is Err <==> opt_view(p.action) == Some(ERROR_ACTION@),
        r matches Ok(a) ==> a == chosen_action(*p),
        r matches Err(m) ==> m@ == NEEDS_INFO_HEAD@ + p.title@,
{
    proof {
        reveal_strlit("error");
        reveal_strlit("edit");
        reveal_strlit("delete");
        assert(EDIT_ACTION@.len() != ERROR_ACTION@.len());
        assert(DELETE_ACTION@.len() != ERROR_ACTION@.len());
    }
    if action_is(p, DELETE_ACTION) {
        Ok(NlAction::Delete)
    } else if action_is(p, EDIT_ACTION) {
        Ok(NlAction::Edit)
    } else if action_is(p, ERROR_ACTION) {
        let mut out: Vec<char> = Vec::new();
        push_str(&mut out, NEEDS_INFO_HEAD);
        push_str(&mut out, p.title.as_str());
        Err(string_of(&out))
    } else if p.original_date.is_some() {
        Ok(NlAction::Edit)
    } else {
        Ok(NlAction::Create)
    }
}

/// The event a deletion is about, or the answer when it names none.
pub fn plan_delete(p: &ParsedEvent) -> (r: Result<String, String>)
    ensures
        r is Ok <==> p.event_id is Some,
        r matches Ok(id) ==> id@ == p.event_id->0@,
        r matches Err(m) ==> m@ == DELETE_NEEDS_ID_MESSAGE@,
{
    match &p.event_id {
        Some(id) => Ok(id.clone()),
        None => Err(String::from_str(DELETE_NEEDS_ID_MESSAGE)),
    }
}

/// The answer to a deletion: its failure as it came, else `DELETED_MESSAGE`,
/// given as an error since there is no event to give back.
pub fn deletion_answer(outcome: Result<(), String>) -> (r: Result<CalendarEvent, String>)
    ensures
        match outcome {
            Ok(_) => r matches Err(m) && m@ == DELETED_MESSAGE@,
            Err(e) => r matches Err(m) && m@ == e@,
        },
{
    match outcome {
        Ok(_) => Err(String::from_str(DELETED_MESSAGE)),
        Err(e) => Err(e),
    }
}

// ------------------------------------------------------------------
// Which event an edit is about
// ------------------------------------------------------------------

/// Answer for an edit that gives neither the event nor its original date.
pub const NEED_ID_OR_DATE_MESSAGE: &'static str = "Para editar un evento, necesito el ID del evento o la fecha original del evento. Por favor, sé más específico.";

/// Opens the answer for an original date on which no event was found.
pub const NO_ORIGINAL_HEAD: &'static str = "No se encontró ningún evento con fecha original ";

/// Closes the answer for an original date on which no event was found.
pub const NO_ORIGINAL_TAIL: &'static str = ". Por favor, verifica la fecha o menciona el título del evento.";

/// Opens the answers for several events on the original date.
pub const SEVERAL_HEAD: &'static str = "Se encontraron ";

/// Follows the count in the answers for several events on the original date.
pub const SEVERAL_DATE: &'static str = " eventos con fecha ";

/// Closes the answer for several events on the original date and no title.
pub const SEVERAL_NEED_TITLE_TAIL: &'static str = ". Por favor, menciona también el título del evento para identificarlo correctamente.";

/// Follows the date in the answer for several events, none with the title.
pub const SEVERAL_UNTITLED_MIDDLE: &'static str = ", pero ninguno tiene el título '";

/// Closes the answer for several events, none with the title.
pub const SEVERAL_UNTITLED_TAIL: &'static str = "'. Por favor, menciona el título exacto del evento que quieres editar.";

/// Opens the answer for an event fetched by id on another date.
pub const FETCHED_DATE_HEAD: &'static str = "⚠️ El evento con ID ";

/// Follows the id in the answer for an event fetched by id on another date.
pub const FETCHED_DATE_MIDDLE: &'static str = " tiene fecha ";

/// Follows the event's date in the answer for an event fetched by id on another date.
pub const FETCHED_DATE_WANTED: &'static str = ", pero se buscaba un evento con fecha ";

/// Closes the answer for an event fetched by id on another date.
pub const FETCHED_DATE_TAIL: &'static str = ". Por favor, verifica la fecha original mencionada.";

/// Opens the answer for an event that could not be fetched by id.
pub const UNLISTED_HEAD: &'static str = "No se encontró el evento con ID ";

/// Answer for an instruction that names an original date the model did not extract.
pub const DATE_PHRASE_MESSAGE: &'static str = "⚠️ La instrucción menciona 'evento de fecha' pero no se pudo identificar la fecha original del evento. Por favor, reformula la instrucción mencionando explícitamente 'evento de fecha [fecha original] moviéndolo a [fecha nueva]' o menciona el título exacto del evento.";

/// Opens the answer for an identified event on another date than the original one.
pub const WRONG_DATE_HEAD: &'static str = "⚠️ El evento identificado ('";

/// Follows the title in that answer.
pub const WRONG_DATE_MIDDLE: &'static str = "') tiene fecha ";

/// Follows the event's date in that answer.
pub const WRONG_DATE_MENTIONED: &'static str = ", pero mencionaste que el evento original tenía fecha ";

/// Closes that answer.
pub const WRONG_DATE_TAIL: &'static str = ". Por favor, sé más específico mencionando el título del evento o verifica que la fecha sea correcta.";

/// Opens the answer for an identified event with another title.
pub const WRONG_TITLE_HEAD: &'static str = "⚠️ El evento identificado tiene título '";

/// Follows the event's title in that answer.
pub const WRONG_TITLE_MIDDLE: &'static str = "', pero mencionaste '";

/// Closes that answer.
pub const WRONG_TITLE_TAIL: &'static str = "'. Por favor, verifica que sea el evento correcto o menciona el título exacto del evento que quieres editar.";

/// The original date as `YYYY-MM-DD`: a ten-byte date with dashes as it is,
/// one with slashes read day-first, else month-first; anything else as it is.
pub open spec fn normalized_date(d: Seq<char>) -> Seq<char> {
    if utf8_len(d) == 10 && contains_seq(d, "-"@) {
        d
    } else if utf8_len(d) == 10 && contains_seq(d, "/"@) {
        match parsed_date(d, DMY_SLASHED@) {
            Some(x) => date_text(x),
            None => match parsed_date(d, MDY_SLASHED@) {
                Some(x) => date_text(x),
                None => d,
            },
        }
    } else {
        d
    }
}

/// Executable `normalized_date`.
pub fn normalize_original_date(d: &String) -> (r: String)
    ensures
        r@ == normalized_date(d@),
{
    let v = chars_of(d.as_str());
    let ten = utf8_len_capped(&v, 11) == 10;
    if ten && contains_str(&v, "-") {
        d.clone()
    } else if ten && contains_str(&v, "/") {
        match parse_date(d.as_str(), DMY_SLASHED) {
            Some(x) => format_date(x),
            None => match parse_date(d.as_str(), MDY_SLASHED) {
                Some(x) => format_date(x),
                None => d.clone(),
            },
        }
    } else {
        d.clone()
    }
}

/// The number of `_` in `s`.
pub open spec fn underscores(s: Seq<char>) -> nat
    decreases s.len(),
{
    if s.len() == 0 {
        0
    } else {
        underscores(s.drop_last()) + if s.last() == '_' {
            1nat
        } else {
            0nat
        }
    }
}

/// The series id of a recurring instance's id (two or more `_`): its first
/// two `_`-separated pieces joined again; any other id as it is.
pub open spec fn instance_series_id(id: Seq<char>) -> Seq<char> {
    if contains_seq(id, "_"@) && underscores(id) >= 2 {
        join_seq(take_at_most(split_seq(id, '_'), 2), "_"@)
    } else {
        id
    }
}

fn count_underscores(v: &Vec<char>) -> (n: usize)
    ensures
        n == underscores(v@),
{
    let mut n: usize = 0;
    let mut i: usize = 0;
    while i < v.len()
        invariant
            i <= v@.len(),
            n <= i,
            n == underscores(v@.take(i as int)),
        decreases v@.len() - i,
    {
        assert(v@.take(i + 1).drop_last() =~= v@.take(i as int));
        if v[i] == '_' {
            n = n + 1;
        }
        i = i + 1;
    }
    assert(v@.take(v@.len() as int) =~= v@);
    n
}

/// Executable `instance_series_id`.
pub fn instance_series_id_of(id: &String) -> (r: String)
    ensures
        r@ == instance_series_id(id@),
{
    let v = chars_of(id.as_str());
    if contains_str(&v, "_") && count_underscores(&v) >= 2 {
        let parts = split_chars(&v, '_');
        let j = join_first(&parts, 2, "_");
        string_of(&j)
    } else {
        id.clone()
    }
}

/// The number of events that start on `day`.
pub open spec fn count_on_day(evs: Seq<CalendarEvent>, day: Seq<char>) -> nat
    decreases evs.len(),
{
    if evs.len() == 0 {
        0
    } else {
        count_on_day(evs.drop_last(), day) + if start_day(evs.last()) == day {
            1nat
        } else {
            0nat
        }
    }
}

/// `i` is the first event that starts on `day`.
pub open spec fn is_first_on_day(evs: Seq<CalendarEvent>, i: int, day: Seq<char>) -> bool {
    &&& 0 <= i < evs.len()
    &&& start_day(evs[i]) == day
    &&& forall|j: int| 0 <= j < i ==> start_day(#[trigger] evs[j]) != day
}

/// The event starts on `day` and has the title `t`.
pub open spec fn titled_on_day(e: CalendarEvent, day: Seq<char>, t: Seq<char>) -> bool {
    start_day(e) == day && e.title@ == t
}

/// `i` is the first event that starts on `day` with the title `t`.
pub open spec fn is_first_titled(evs: Seq<CalendarEvent>, i: int, day: Seq<char>, t: Seq<char>) -> bool {
    &&& 0 <= i < evs.len()
    &&& titled_on_day(evs[i], day, t)
    &&& forall|j: int| 0 <= j < i ==> !titled_on_day(#[trigger] evs[j], day, t)
}

/// No event starts on `day` with the title `t`.
pub open spec fn none_titled(evs: Seq<CalendarEvent>, day: Seq<char>, t: Seq<char>) -> bool {
    forall|j: int| 0 <= j < evs.len() ==> !titled_on_day(#[trigger] evs[j], day, t)
}

/// `i` is the first event with the id `id`.
pub open spec fn is_first_with_id(evs: Seq<CalendarEvent>, i: int, id: Seq<char>) -> bool {
    &&& 0 <= i < evs.len()
    &&& evs[i].id@ == id
    &&& forall|j: int| 0 <= j < i ==> (#[trigger] evs[j]).id@ != id
}

/// No event has the id `id`.
pub open spec fn none_with_id(evs: Seq<CalendarEvent>, id: Seq<char>) -> bool {
    forall|j: int| 0 <= j < evs.len() ==> (#[trigger] evs[j]).id@ != id
}

/// The answer for an original date on which no listed event starts.
pub open spec fn no_event_on_date_message(day: Seq<char>) -> Seq<char> {
    NO_ORIGINAL_HEAD@ + day + NO_ORIGINAL_TAIL@
}

/// The answer for `k` events on the original date and no title to choose by.
pub open spec fn several_need_title_message(k: nat, day: Seq<char>) -> Seq<char> {
    SEVERAL_HEAD@ + decimal(k) + SEVERAL_DATE@ + day + SEVERAL_NEED_TITLE_TAIL@
}

/// The answer for `k` events on the original date, none titled `t`.
pub open spec fn several_untitled_message(k: nat, day: Seq<char>, t: Seq<char>) -> Seq<char> {
    SEVERAL_HEAD@ + decimal(k) + SEVERAL_DATE@ + day + SEVERAL_UNTITLED_MIDDLE@ + t
        + SEVERAL_UNTITLED_TAIL@
}

/// Where the event an edit is about comes from.
#[derive(Clone, Debug, PartialEq, Eq)]
pub enum EditTarget {
    /// The listed event at this index, found by its original date.
    Listed(usize),
    /// The listed event at this index, found by its id.
    ListedById(usize),
    /// To fetch by id (first by `clean_id`, then by `event_id`) and to check
    /// against the original date `date`.
    FetchForDate { clean_id: String, event_id: String, date: String },
    /// To fetch by id; it is not among the listed events.
    FetchById(String),
}

/// The date whose events an edit looks among: the original date, when it
/// reads as `YYYY-MM-DD`.
pub open spec fn edit_search_date_spec(p: ParsedEvent) -> Option<CalendarDate> {
    match opt_view(p.original_date) {
        Some(d) => parsed_date(d, YMD@),
        None => None,
    }
}

/// Executable `edit_search_date_spec`.
pub fn edit_search_date(p: &ParsedEvent) -> (r: Option<CalendarDate>)
    ensures
        r == edit_search_date_spec(*p),
        r matches Some(d) ==> valid_date(d),
{
    match &p.original_date {
        Some(d) => parse_date(d.as_str(), YMD),
        None => None,
    }
}

/// Finds the event an edit is about among the listed events: by its original
/// date (and title when several share it), else by its id; says which fetch
/// is needed when the list does not hold it.
pub fn locate_edit_target(p: &ParsedEvent, events: &Vec<CalendarEvent>) -> (r: Result<
    EditTarget,
    String,
>)
    ensures
        p.original_date is Some ==> ({
            let day = normalized_date(p.original_date->0@);
            let k = count_on_day(events@, day);
            if k == 0 {
                match p.event_id {
                    Some(id) => (r matches Ok(EditTarget::FetchForDate { clean_id, event_id, date })
                        && clean_id@ == instance_series_id(id@) && event_id@ == id@ && date@ == day),
                    None => (r matches Err(m) && m@ == no_event_on_date_message(day)),
                }
            } else if k == 1 {
                (r matches Ok(EditTarget::Listed(i)) && is_first_on_day(events@, i as int, day))
            } else if p.title@.len() == 0 {
                (r matches Err(m) && m@ == several_need_title_message(k, day))
            } else if none_titled(events@, day, p.title@) {
                (r matches Err(m) && m@ == several_untitled_message(k, day, p.title@))
            } else {
                (r matches Ok(EditTarget::Listed(i)) && is_first_titled(
                    events@,
                    i as int,
                    day,
                    p.title@,
                ))
            }
        }),
        p.original_date is None ==> match p.event_id {
            Some(id) => if none_with_id(events@, id@) {
                (r matches Ok(EditTarget::FetchById(x)) && x@ == id@)
            } else {
                (r matches Ok(EditTarget::ListedById(i)) && is_first_with_id(events@, i as int, id@))
            },
            None => (r matches Err(m) && m@ == NEED_ID_OR_DATE_MESSAGE@),
        },
{
    match &p.original_date {
        Some(od) => {
            let day = normalize_original_date(od);
            let mut k: usize = 0;
            let mut first: Option<usize> = None;
            let mut titled: Option<usize> = None;
            let mut i: usize = 0;
            while i < events.len()
                invariant
                    i <= events@.len(),
                    k <= i,
                    k == count_on_day(events@.take(i as int), day@),
                    (k == 0) == (first is None),
                    first is None ==> forall|j: int|
                        0 <= j < i ==> start_day(#[trigger] events@[j]) != day@,
                    first matches Some(f) ==> f < i && is_first_on_day(events@, f as int, day@),
                    titled is None ==> forall|j: int|
                        0 <= j < i ==> !titled_on_day(#[trigger] events@[j], day@, p.title@),
                    titled matches Some(f) ==> f < i && is_first_titled(
                        events@,
                        f as int,
                        day@,
                        p.title@,
                    ),
                decreases events@.len() - i,
            {
                assert(events@.take(i + 1).drop_last() =~= events@.take(i as int));
                assert(events@.take(i + 1).last() == events@[i as int]);
                let sd = start_day_of(&events[i]);
                if sd == day {
                    k = k + 1;
                    if first.is_none() {
                        first = Some(i);
                    }
                    if titled.is_none() && events[i].title == p.title {
                        titled = Some(i);
                    }
                }
                i = i + 1;
            }
            assert(events@.take(events@.len() as int) =~= events@);
            if k == 0 {
                match &p.event_id {
                    Some(id) => Ok(
                        EditTarget::FetchForDate {
                            clean_id: instance_series_id_of(id),
                            event_id: id.clone(),
                            date: day,
                        },
                    ),
                    None => {
                        let mut out: Vec<char> = Vec::new();
                        push_str(&mut out, NO_ORIGINAL_HEAD);
                        push_str(&mut out, day.as_str());
                        push_str(&mut out, NO_ORIGINAL_TAIL);
                        Err(string_of(&out))
                    },
                }
            } else if k == 1 {
                match first {
                    Some(f) => Ok(EditTarget::Listed(f)),
                    None => Ok(EditTarget::Listed(0)),
                }
            } else if p.title.unicode_len() == 0 {
                let mut out: Vec<char> = Vec::new();
                push_str(&mut out, SEVERAL_HEAD);
                let kc = decimal_chars(k as u64);
                append_chars(&mut out, &kc);
                push_str(&mut out, SEVERAL_DATE);
                push_str(&mut out, day.as_str());
                push_str(&mut out, SEVERAL_NEED_TITLE_TAIL);
                Err(string_of(&out))
            } else {
                match titled {
                    Some(f) => Ok(EditTarget::Listed(f)),
                    None => {
                        let mut out: Vec<char> = Vec::new();
                        push_str(&mut out, SEVERAL_HEAD);
                        let kc = decimal_chars(k as u64);
                        append_chars(&mut out, &kc);
                        push_str(&mut out, SEVERAL_DATE);
                        push_str(&mut out, day.as_str());
                        push_str(&mut out, SEVERAL_UNTITLED_MIDDLE);
                        push_str(&mut out, p.title.as_str());
                        push_str(&mut out, SEVERAL_UNTITLED_TAIL);
                        Err(string_of(&out))
                    },
                }
            }
        },
        None => match &p.event_id {
            Some(id) => {
                let mut i: usize = 0;
                while i < events.len()
                    invariant
                        i <= events@.len(),
                        p.original_date is None,
                        p.event_id == Some(*id),
                        forall|j: int| 0 <= j < i ==> (#[trigger] events@[j]).id@ != id@,
                    decreases events@.len() - i,
                {
                    if events[i].id == *id {
                        return Ok(EditTarget::ListedById(i));
                    }
                    i = i + 1;
                }
                Ok(EditTarget::FetchById(id.clone()))
            },
            None => Err(String::from_str(NEED_ID_OR_DATE_MESSAGE)),
        },
    }
}

/// What to do after fetching the event of an edit by its series id.
#[derive(Clone, Debug, PartialEq, Eq)]
pub enum SeriesFetch {
    /// The fetch found the event.
    Found(CalendarEvent),
    /// It failed: fetch by this id, the one the model gave, instead.
    FetchRaw(String),
}

/// The step after fetching by the series id: the event when it came back,
/// else a fetch by the model's own id (whose failure is then the answer).
pub fn after_series_fetch(result: Result<CalendarEvent, String>, event_id: &String) -> (r:
    SeriesFetch)
    ensures
        match result {
            Ok(e) => r == SeriesFetch::Found(e),
            Err(_) => r matches SeriesFetch::FetchRaw(x) && x@ == event_id@,
        },
{
    match result {
        Ok(e) => SeriesFetch::Found(e),
        Err(_) => SeriesFetch::FetchRaw(event_id.clone()),
    }
}

/// The answer for an event fetched by id that starts on another day than the original date.
pub open spec fn fetched_date_message(event_id: Seq<char>, got: Seq<char>, wanted: Seq<char>) -> Seq<
    char,
> {
    FETCHED_DATE_HEAD@ + event_id + FETCHED_DATE_MIDDLE@ + got + FETCHED_DATE_WANTED@ + wanted
        + FETCHED_DATE_TAIL@
}

/// Refuses an event fetched by id that does not start on the original date.
pub fn check_fetched_date(ev: &CalendarEvent, event_id: &str, date: &str) -> (r: Result<(), String>)
    ensures
        r is Err <==> start_day(*ev) != date@,
        r matches Err(m) ==> m@ == fetched_date_message(event_id@, start_day(*ev), date@),
{
    let got = start_day_of(ev);
    let gc = chars_of(got.as_str());
    let wc = chars_of(date);
    if chars_eq(&gc, &wc) {
        Ok(())
    } else {
        let mut out: Vec<char> = Vec::new();
        push_str(&mut out, FETCHED_DATE_HEAD);
        push_str(&mut out, event_id);
        push_str(&mut out, FETCHED_DATE_MIDDLE);
        push_str(&mut out, got.as_str());
        push_str(&mut out, FETCHED_DATE_WANTED);
        push_str(&mut out, date);
        push_str(&mut out, FETCHED_DATE_TAIL);
        Err(string_of(&out))
    }
}

/// The answer for an event that could not be fetched by id, with the reason.
pub fn unlisted_event_message(id: &str, reason: &str) -> (s: String)
    ensures
        s@ == UNLISTED_HEAD@ + id@ + ": "@ + reason@,
{
    let mut out: Vec<char> = Vec::new();
    push_str(&mut out, UNLISTED_HEAD);
    push_str(&mut out, id);
    push_str(&mut out, ": ");
    push_str(&mut out, reason);
    string_of(&out)
}

/// The (lower-cased) instruction speaks of the event of some date.
pub open spec fn mentions_event_date(lower: Seq<char>) -> bool {
    contains_seq(lower, "evento de fecha"@) || contains_seq(lower, "evento el día"@)
        || contains_seq(lower, "evento del"@)
}

/// Refuses an edit found by id whose instruction speaks of the event of some
/// date while the model gave a new date but no original one.
pub fn check_date_phrase(instruction: &str, p: &ParsedEvent) -> (r: Result<(), String>)
    ensures
        r is Err <==> (mentions_event_date(lowercased(instruction@)) && p.original_date is None
            && p.start_date is Some),
        r matches Err(m) ==> m@ == DATE_PHRASE_MESSAGE@,
{
    let lower_s = lowercase(instruction);
    let lower = chars_of(lower_s.as_str());
    let mentions = contains_str(&lower, "evento de fecha") || contains_str(&lower, "evento el día")
        || contains_str(&lower, "evento del");
    if mentions && p.original_date.is_none() && p.start_date.is_some() {
        Err(String::from_str(DATE_PHRASE_MESSAGE))
    } else {
        Ok(())
    }
}

/// The answer for an identified event on another day than the original date.
pub open spec fn wrong_date_message(title: Seq<char>, got: Seq<char>, wanted: Seq<char>) -> Seq<
    char,
> {
    WRONG_DATE_HEAD@ + title + WRONG_DATE_MIDDLE@ + got + WRONG_DATE_MENTIONED@ + wanted
        + WRONG_DATE_TAIL@
}

/// The answer for an identified event whose title is not the one mentioned.
pub open spec fn wrong_title_message(has: Seq<char>, said: Seq<char>) -> Seq<char> {
    WRONG_TITLE_HEAD@ + has + WRONG_TITLE_MIDDLE@ + said + WRONG_TITLE_TAIL@
}

/// The identified event does not start on the original date given.
pub open spec fn off_original_date(p: ParsedEvent, cur: CalendarEvent) -> bool {
    p.original_date is Some && start_day(cur) != p.original_date->0@
}

/// Without an original date, the model's non-empty title is not the event's.
pub open spec fn off_title(p: ParsedEvent, cur: CalendarEvent) -> bool {
    p.original_date is None && p.title@.len() > 0 && p.title@ != cur.title@
}

/// Refuses an identified event that contradicts what the instruction said:
/// another day than the original date, or (without an original date) another title.
pub fn validate_edit_target(p: &ParsedEvent, cur: &CalendarEvent) -> (r: Result<(), String>)
    ensures
        r is Err <==> (off_original_date(*p, *cur) || off_title(*p, *cur)),
        off_original_date(*p, *cur) ==> (r matches Err(m) && m@ == wrong_date_message(
            cur.title@,
            start_day(*cur),
            p.original_date->0@,
        )),
        off_title(*p, *cur) ==> (r matches Err(m) && m@ == wrong_title_message(
            cur.title@,
            p.title@,
        )),
{
    match &p.original_date {
        Some(od) => {
            let got = start_day_of(cur);
            if got != *od {
                let mut out: Vec<char> = Vec::new();
                push_str(&mut out, WRONG_DATE_HEAD);
                push_str(&mut out, cur.title.as_str());
                push_str(&mut out, WRONG_DATE_MIDDLE);
                push_str(&mut out, got.as_str());
                push_str(&mut out, WRONG_DATE_MENTIONED);
                push_str(&mut out, od.as_str());
                push_str(&mut out, WRONG_DATE_TAIL);
                return Err(string_of(&out));
            }
            Ok(())
        },
        None => {
            if p.title.unicode_len() > 0 && p.title != cur.title {
                let mut out: Vec<char> = Vec::new();
                push_str(&mut out, WRONG_TITLE_HEAD);
                push_str(&mut out, cur.title.as_str());
                push_str(&mut out, WRONG_TITLE_MIDDLE);
                push_str(&mut out, p.title.as_str());
                push_str(&mut out, WRONG_TITLE_TAIL);
                Err(string_of(&out))
            } else {
                Ok(())
            }
        },
    }
}

// ------------------------------------------------------------------
// The request that updates an event
// ------------------------------------------------------------------

/// Opens the answer for a start date and time that chrono cannot read.
pub const START_PARSE_HEAD: &'static str = "Error al parsear fecha/hora de inicio: ";

/// Opens the answer for an end date and time that chrono cannot read.
pub const END_PARSE_HEAD: &'static str = "Error al parsear fecha/hora de fin: ";

/// Answer for a start that has no instant in the local time zone.
pub const START_INVALID_MESSAGE: &'static str = "Fecha/hora de inicio inválida";

/// Answer for an end that has no instant in the local time zone.
pub const END_INVALID_MESSAGE: &'static str = "Fecha/hora de fin inválida";

/// Why no request could be planned.
#[derive(Clone, Debug, PartialEq, Eq)]
pub enum PlanError {
    /// The instruction is refused, with the answer to give.
    Refused(String),
    /// A date or time falls outside what chrono represents.
    OutOfRange,
}

/// `a`, else `b`.
pub open spec fn or_text(a: Option<Seq<char>>, b: Seq<char>) -> Seq<char> {
    match a {
        Some(x) => x,
        None => b,
    }
}

/// `a`, else `b` (`Option::or`).
pub open spec fn or_opt(a: Option<Seq<char>>, b: Option<Seq<char>>) -> Option<Seq<char>> {
    match a {
        Some(x) => Some(x),
        None => b,
    }
}

/// `date` and `time` with a space between them.
pub open spec fn date_and_time(date: Seq<char>, time: Seq<char>) -> Seq<char> {
    date + " "@ + time
}

/// The new start date: the model's, else the event's start day, else today.
pub open spec fn update_start_date(p: ParsedEvent, cur: CalendarEvent, today: Seq<char>) -> Seq<
    char,
> {
    or_text(opt_view(p.start_date), day_or(cur.start@, cur.is_all_day, today))
}

/// The new end date: the model's, else the event's end day, else the new start date.
pub open spec fn update_end_date(p: ParsedEvent, cur: CalendarEvent, start_date: Seq<char>) -> Seq<
    char,
> {
    or_text(opt_view(p.end_date), day_or(cur.end@, cur.is_all_day, start_date))
}

/// The (lower-cased) instruction asks to keep the times ("mismo ... horario/hora").
pub open spec fn keeps_timing(lower: Seq<char>) -> bool {
    contains_seq(lower, "mismo"@) && (contains_seq(lower, "horario"@) || contains_seq(
        lower,
        "hora"@,
    ))
}

/// Whether the updated event lasts all day: as the event did when the times
/// are kept or none were given; not when a time was given.
pub open spec fn update_all_day(p: ParsedEvent, cur: CalendarEvent, lower: Seq<char>) -> bool {
    if keeps_timing(lower) {
        cur.is_all_day
    } else if p.start_time is None && p.end_time is None {
        cur.is_all_day
    } else {
        false
    }
}

/// The calendar date of an event boundary.
pub open spec fn boundary_date(t: Seq<char>, all_day: bool) -> Option<CalendarDate> {
    if all_day {
        parsed_date(t, YMD@)
    } else {
        match rfc3339_parsed(t) {
            Some(z) => Some(z.local.date),
            None => None,
        }
    }
}

/// The inclusive end of an all-day event of `days` days (counted from its
/// start to its exclusive end, as Google lists it) that now starts on `sd`,
/// written `start_date`: the start itself for one day or less, else the day
/// `days - 1` days later; `None` when chrono cannot represent that day.
pub open spec fn inclusive_end(sd: CalendarDate, start_date: Seq<char>, days: i64) -> Option<
    Seq<char>,
> {
    if days <= 1 {
        Some(start_date)
    } else {
        match days_added(sd, (days - 1) as i64) {
            Some(e) => Some(date_text(e)),
            None => None,
        }
    }
}

/// Start and end of an all-day update: the new start date and, when it reads
/// as a date, an inclusive end that keeps the event's number of days (the
/// event's own end is Google's exclusive end, and the request adds the day
/// after the end it is given); a one-day event when the event's bounds do not
/// read. `None` when chrono cannot represent the end.
pub open spec fn all_day_span(p: ParsedEvent, cur: CalendarEvent, start_date: Seq<char>) -> Option<
    (Seq<char>, Seq<char>),
> {
    match parsed_date(start_date, YMD@) {
        Some(sd) => {
            let end = match (
                boundary_date(cur.start@, cur.is_all_day),
                boundary_date(cur.end@, cur.is_all_day),
            ) {
                (Some(os), Some(oe)) => inclusive_end(sd, start_date, days_from_to(os, oe)),
                _ => Some(start_date),
            };
            match end {
                Some(e) => Some((start_date, e)),
                None => None,
            }
        },
        None => Some((start_date, or_text(opt_view(p.end_date), start_date))),
    }
}

/// `l` moved by the event's length (one hour when its bounds do not read).
pub open spec fn shifted_like(l: LocalDateTime, cur: CalendarEvent) -> Option<LocalDateTime> {
    match (rfc3339_parsed(cur.start@), rfc3339_parsed(cur.end@)) {
        (Some(a), Some(b)) => span_shifted(l, a, b),
        _ => local_shifted(l, 3600i64, 0u32),
    }
}

/// The start time of a timed update: the model's, else the event's (for a
/// timed event whose start reads), else `DEFAULT_START_TIME`.
pub open spec fn timed_start_time(p: ParsedEvent, cur: CalendarEvent) -> Seq<char> {
    match opt_view(p.start_time) {
        Some(t) => t,
        None => if !cur.is_all_day {
            match rfc3339_parsed(cur.start@) {
                Some(z) => hour_minute_text(z.local),
                None => DEFAULT_START_TIME@,
            }
        } else {
            DEFAULT_START_TIME@
        },
    }
}

/// Start and end, given in local time (UTC-3), as RFC 3339 UTC texts.
pub open spec fn utc_pair(s: LocalDateTime, e: LocalDateTime) -> Result<(Seq<char>, Seq<char>), Seq<
    char,
>> {
    match utc_of_local(s, LOCAL_OFFSET_SECONDS) {
        None => Err(START_INVALID_MESSAGE@),
        Some(su) => match utc_of_local(e, LOCAL_OFFSET_SECONDS) {
            None => Err(END_INVALID_MESSAGE@),
            Some(eu) => Ok((rfc3339_text(su), rfc3339_text(eu))),
        },
    }
}

/// Start and end of a timed update; `None` when the end falls outside what chrono represents.
pub open spec fn timed_span(
    p: ParsedEvent,
    cur: CalendarEvent,
    start_date: Seq<char>,
    end_date: Seq<char>,
    keep: bool,
) -> Option<Result<(Seq<char>, Seq<char>), Seq<char>>> {
    let s_text = date_and_time(start_date, timed_start_time(p, cur));
    match local_parsed(s_text, YMD_HM@) {
        None => Some(Err(START_PARSE_HEAD@ + local_parse_error(s_text, YMD_HM@))),
        Some(sdt) => {
            let end: Option<Result<LocalDateTime, Seq<char>>> = if keep || (p.start_time is None
                && p.end_time is None) {
                match shifted_like(sdt, cur) {
                    Some(e) => Some(Ok(e)),
                    None => None,
                }
            } else {
                let et: Option<Seq<char>> = match opt_view(p.end_time) {
                    Some(t) => Some(t),
                    None => match shifted_like(sdt, cur) {
                        Some(e) => Some(hour_minute_text(e)),
                        None => None,
                    },
                };
                match et {
                    None => None,
                    Some(t) => {
                        let e_text = date_and_time(end_date, t);
                        match local_parsed(e_text, YMD_HM@) {
                            Some(e) => Some(Ok(e)),
                            None => Some(Err(END_PARSE_HEAD@ + local_parse_error(e_text, YMD_HM@))),
                        }
                    },
                }
            };
            match end {
                None => None,
                Some(Err(m)) => Some(Err(m)),
                Some(Ok(edt)) => Some(utc_pair(sdt, edt)),
            }
        },
    }
}

/// With the times kept on a timed event: the event's start time of day on the
/// new start date, lasting as long as the event did; `(s, e)` when that does
/// not read; `None` when the end falls outside what chrono represents.
pub open spec fn preserved_span(
    cur: CalendarEvent,
    start_date: Seq<char>,
    s: Seq<char>,
    e: Seq<char>,
) -> Option<(Seq<char>, Seq<char>, bool)> {
    match (rfc3339_parsed(cur.start@), rfc3339_parsed(cur.end@)) {
        (Some(a), Some(b)) => match local_parsed(
            date_and_time(start_date, hms_text(a.local)),
            YMD_HMS@,
        ) {
            Some(sn) => match span_shifted(sn, a, b) {
                None => None,
                Some(en) => match (
                    utc_of_local(sn, LOCAL_OFFSET_SECONDS),
                    utc_of_local(en, LOCAL_OFFSET_SECONDS),
                ) {
                    (Some(x), Some(y)) => Some((rfc3339_text(x), rfc3339_text(y), false)),
                    _ => Some((s, e, false)),
                },
            },
            None => Some((s, e, false)),
        },
        _ => Some((s, e, false)),
    }
}

/// Start, end and all-day flag of the updated event, or the refusal;
/// `None` where chrono cannot represent a date reached.
pub open spec fn update_times(p: ParsedEvent, cur: CalendarEvent, lower: Seq<char>, today: Seq<char>) -> Option<
    Result<(Seq<char>, Seq<char>, bool), Seq<char>>,
> {
    let sd = update_start_date(p, cur, today);
    let ed = update_end_date(p, cur, sd);
    let keep = keeps_timing(lower);
    let all = update_all_day(p, cur, lower);
    let base: Option<Result<(Seq<char>, Seq<char>), Seq<char>>> = if all {
        match all_day_span(p, cur, sd) {
            Some(x) => Some(Ok(x)),
            None => None,
        }
    } else {
        timed_span(p, cur, sd, ed, keep)
    };
    match base {
        None => None,
        Some(Err(m)) => Some(Err(m)),
        Some(Ok((s, e))) => if keep && !cur.is_all_day {
            match preserved_span(cur, sd, s, e) {
                Some(t) => Some(Ok(t)),
                None => None,
            }
        } else if !cur.is_all_day && all && p.start_time is None && p.end_time is None {
            Some(Ok((cur.start@, cur.end@, false)))
        } else {
            Some(Ok((s, e, all)))
        },
    }
}

/// The (lower-cased) instruction asks to change the title.
pub open spec fn changes_title(lower: Seq<char>) -> bool {
    let has_cambiar = contains_seq(lower, "cambiar"@) || contains_seq(lower, "cambia"@);
    let has_titulo = contains_seq(lower, "título"@) || contains_seq(lower, "titulo"@);
    let has_por = contains_seq(lower, " por "@);
    let has_a = contains_seq(lower, " a "@);
    ||| contains_seq(lower, "cambiar el título"@)
    ||| contains_seq(lower, "cambiar título"@)
    ||| contains_seq(lower, "cambiar titulo"@)
    ||| contains_seq(lower, "cambia el título"@)
    ||| contains_seq(lower, "cambia título"@)
    ||| contains_seq(lower, "cambia titulo"@)
    ||| (has_cambiar && has_titulo)
    ||| (has_titulo && (has_por || has_a))
}

/// The updated title: the event's when it was found by its original date
/// and no change of title was asked, or when the model gave none; else the model's.
pub open spec fn update_title(p: ParsedEvent, cur: CalendarEvent, lower: Seq<char>) -> Seq<char> {
    if p.original_date is Some && !changes_title(lower) {
        cur.title@
    } else if p.title@.len() == 0 {
        cur.title@
    } else {
        p.title@
    }
}

/// The (lower-cased) instruction asks to keep the participants.
pub open spec fn keeps_participants(lower: Seq<char>) -> bool {
    ||| (contains_seq(lower, "mismo"@) && contains_seq(lower, "participante"@))
    ||| (contains_seq(lower, "misma"@) && contains_seq(lower, "participante"@))
    ||| (contains_seq(lower, "mismos"@) && contains_seq(lower, "participante"@))
}

/// The updated participants: the event's when asked to keep them or when the
/// model gave none; else the model's.
pub open spec fn update_attendees(p: ParsedEvent, cur: CalendarEvent, lower: Seq<char>) -> Option<
    Seq<Seq<char>>,
> {
    if keeps_participants(lower) {
        opt_strings_view(cur.attendees)
    } else if p.attendees is Some {
        opt_strings_view(p.attendees)
    } else {
        opt_strings_view(cur.attendees)
    }
}

/// The view of a planned span.
pub open spec fn span_view(r: Option<Result<(String, String), String>>) -> Option<
    Result<(Seq<char>, Seq<char>), Seq<char>>,
> {
    match r {
        None => None,
        Some(Ok((a, b))) => Some(Ok((a@, b@))),
        Some(Err(m)) => Some(Err(m@)),
    }
}

fn text_or(a: &Option<String>, b: &String) -> (r: String)
    ensures
        r@ == or_text(opt_view(*a), b@),
{
    match a {
        Some(x) => x.clone(),
        None => b.clone(),
    }
}

fn date_and_time_of(date: &String, time: &String) -> (r: String)
    ensures
        r@ == date_and_time(date@, time@),
{
    let mut out: Vec<char> = Vec::new();
    push_str(&mut out, date.as_str());
    push_str(&mut out, " ");
    push_str(&mut out, time.as_str());
    string_of(&out)
}

fn with_head(head: &str, text: &String) -> (r: String)
    ensures
        r@ == head@ + text@,
{
    let mut out: Vec<char> = Vec::new();
    push_str(&mut out, head);
    push_str(&mut out, text.as_str());
    string_of(&out)
}

fn boundary_date_of(t: &String, all_day: bool) -> (r: Option<CalendarDate>)
    ensures
        r == boundary_date(t@, all_day),
        r matches Some(d) ==> valid_date(d),
{
    if all_day {
        parse_date(t.as_str(), YMD)
    } else {
        match parse_rfc3339(t.as_str()) {
            Some(z) => Some(z.local.date),
            None => None,
        }
    }
}

fn all_day_span_of(p: &ParsedEvent, cur: &CalendarEvent, sd: &String) -> (r: Option<(String, String)>)
    ensures
        match r {
            Some((a, b)) => all_day_span(*p, *cur, sd@) == Some((a@, b@)),
            None => all_day_span(*p, *cur, sd@) is None,
        },
{
    match parse_date(sd.as_str(), YMD) {
        Some(d) => {
            match (
                boundary_date_of(&cur.start, cur.is_all_day),
                boundary_date_of(&cur.end, cur.is_all_day),
            ) {
                (Some(os), Some(oe)) => {
                    let n = days_between(os, oe);
                    if n <= 1 {
                        Some((sd.clone(), sd.clone()))
                    } else {
                        match add_days(d, n - 1) {
                            Some(e) => Some((sd.clone(), format_date(e))),
                            None => None,
                        }
                    }
                },
                _ => Some((sd.clone(), sd.clone())),
            }
        },
        None => Some((sd.clone(), text_or(&p.end_date, sd))),
    }
}

fn shifted_like_of(l: LocalDateTime, cur: &CalendarEvent) -> (r: Option<LocalDateTime>)
    requires
        valid_local(l),
    ensures
        r == shifted_like(l, *cur),
        r matches Some(m) ==> valid_local(m),
{
    match (parse_rfc3339(cur.start.as_str()), parse_rfc3339(cur.end.as_str())) {
        (Some(a), Some(b)) => shift_by_span(l, a, b),
        _ => shift_local(l, 3600, 0),
    }
}

fn timed_start_time_of(p: &ParsedEvent, cur: &CalendarEvent) -> (r: String)
    ensures
        r@ == timed_start_time(*p, *cur),
{
    match &p.start_time {
        Some(t) => t.clone(),
        None => {
            if !cur.is_all_day {
                match parse_rfc3339(cur.start.as_str()) {
                    Some(z) => format_hour_minute(z.local),
                    None => String::from_str(DEFAULT_START_TIME),
                }
            } else {
                String::from_str(DEFAULT_START_TIME)
            }
        },
    }
}

fn utc_pair_of(s: LocalDateTime, e: LocalDateTime) -> (r: Result<(String, String), String>)
    requires
        valid_local(s),
        valid_local(e),
    ensures
        match r {
            Ok((a, b)) => utc_pair(s, e) == Ok::<(Seq<char>, Seq<char>), Seq<char>>((a@, b@)),
            Err(m) => utc_pair(s, e) == Err::<(Seq<char>, Seq<char>), Seq<char>>(m@),
        },
{
    match local_to_utc(s, LOCAL_OFFSET_SECONDS) {
        None => Err(String::from_str(START_INVALID_MESSAGE)),
        Some(su) => match local_to_utc(e, LOCAL_OFFSET_SECONDS) {
            None => Err(String::from_str(END_INVALID_MESSAGE)),
            Some(eu) => Ok((utc_rfc3339(su), utc_rfc3339(eu))),
        },
    }
}

fn timed_span_of(p: &ParsedEvent, cur: &CalendarEvent, sd: &String, ed: &String, keep: bool) -> (r:
    Option<Result<(String, String), String>>)
    ensures
        span_view(r) == timed_span(*p, *cur, sd@, ed@, keep),
{
    let st = timed_start_time_of(p, cur);
    let s_text = date_and_time_of(sd, &st);
    let sdt = match parse_local(s_text.as_str(), YMD_HM) {
        Ok(l) => l,
        Err(e) => {
            return Some(Err(with_head(START_PARSE_HEAD, &e)));
        },
    };
    let edt = if keep || (p.start_time.is_none() && p.end_time.is_none()) {
        match shifted_like_of(sdt, cur) {
            Some(e) => e,
            None => {
                return None;
            },
        }
    } else {
        let et = match &p.end_time {
            Some(t) => t.clone(),
            None => match shifted_like_of(sdt, cur) {
                Some(e) => format_hour_minute(e),
                None => {
                    return None;
                },
            },
        };
        let e_text = date_and_time_of(ed, &et);
        match parse_local(e_text.as_str(), YMD_HM) {
            Ok(l) => l,
            Err(e) => {
                return Some(Err(with_head(END_PARSE_HEAD, &e)));
            },
        }
    };
    Some(utc_pair_of(sdt, edt))
}

fn preserved_span_of(cur: &CalendarEvent, sd: &String, s: String, e: String) -> (r: Option<
    (String, String, bool),
>)
    ensures
        match r {
            Some((a, b, c)) => preserved_span(*cur, sd@, s@, e@) == Some((a@, b@, c)),
            None => preserved_span(*cur, sd@, s@, e@) is None,
        },
{
    match (parse_rfc3339(cur.start.as_str()), parse_rfc3339(cur.end.as_str())) {
        (Some(a), Some(b)) => {
            let t = format_hms(a.local);
            let text = date_and_time_of(sd, &t);
            match parse_local(text.as_str(), YMD_HMS) {
                Ok(sn) => match shift_by_span(sn, a, b) {
                    None => None,
                    Some(en) => match (
                        local_to_utc(sn, LOCAL_OFFSET_SECONDS),
                        local_to_utc(en, LOCAL_OFFSET_SECONDS),
                    ) {
                        (Some(x), Some(y)) => Some((utc_rfc3339(x), utc_rfc3339(y), false)),
                        _ => Some((s, e, false)),
                    },
                },
                Err(_) => Some((s, e, false)),
            }
        },
        _ => Some((s, e, false)),
    }
}

/// The request that updates the identified event `cur` as the parsed
/// instruction asks: new dates and times (keeping the event's length), the
/// title, participants, description and location, each kept from the event
/// unless the instruction changes it.
pub fn plan_update(p: &ParsedEvent, cur: &CalendarEvent, instruction: &str, today: CalendarDate) -> (r:
    Result<CreateEventRequest, PlanError>)
    ensures
        ({
            let lower = lowercased(instruction@);
            let times = update_times(*p, *cur, lower, date_text(today));
            match r {
                Ok(req) => {
                    &&& times == Some(
                        Ok::<(Seq<char>, Seq<char>, bool), Seq<char>>(
                            (req.start@, req.end@, req.is_all_day),
                        ),
                    )
                    &&& req.title@ == update_title(*p, *cur, lower)
                    &&& opt_view(req.description) == or_opt(
                        opt_view(p.description),
                        opt_view(cur.description),
                    )
                    &&& opt_view(req.location) == or_opt(
                        opt_view(p.location),
                        opt_view(cur.location),
                    )
                    &&& opt_strings_view(req.attendees) == update_attendees(*p, *cur, lower)
                },
                Err(PlanError::Refused(m)) => times == Some(
                    Err::<(Seq<char>, Seq<char>, bool), Seq<char>>(m@),
                ),
                Err(PlanError::OutOfRange) => times is None,
            }
        }),
{
    let lower_s = lowercase(instruction);
    let lower = chars_of(lower_s.as_str());
    let today_s = format_date(today);
    let start_fallback = day_or_else(&cur.start, cur.is_all_day, &today_s);
    let sd = text_or(&p.start_date, &start_fallback);
    let end_fallback = day_or_else(&cur.end, cur.is_all_day, &sd);
    let ed = text_or(&p.end_date, &end_fallback);
    let keep = contains_str(&lower, "mismo") && (contains_str(&lower, "horario") || contains_str(
        &lower,
        "hora",
    ));
    let all = if keep {
        cur.is_all_day
    } else if p.start_time.is_none() && p.end_time.is_none() {
        cur.is_all_day
    } else {
        false
    };
    let base: Option<Result<(String, String), String>> = if all {
        match all_day_span_of(p, cur, &sd) {
            Some(x) => Some(Ok(x)),
            None => None,
        }
    } else {
        timed_span_of(p, cur, &sd, &ed, keep)
    };
    let (s, e) = match base {
        None => {
            return Err(PlanError::OutOfRange);
        },
        Some(Err(m)) => {
            return Err(PlanError::Refused(m));
        },
        Some(Ok(x)) => x,
    };
    let (fs, fe, fa) = if keep && !cur.is_all_day {
        match preserved_span_of(cur, &sd, s, e) {
            Some(t) => t,
            None => {
                return Err(PlanError::OutOfRange);
            },
        }
    } else if !cur.is_all_day && all && p.start_time.is_none() && p.end_time.is_none() {
        (cur.start.clone(), cur.end.clone(), false)
    } else {
        (s, e, all)
    };
    let has_cambiar = contains_str(&lower, "cambiar") || contains_str(&lower, "cambia");
    let has_titulo = contains_str(&lower, "título") || contains_str(&lower, "titulo");
    let has_por = contains_str(&lower, " por ");
    let has_a = contains_str(&lower, " a ");
    let changing = contains_str(&lower, "cambiar el título") || contains_str(&lower, "cambiar título")
        || contains_str(&lower, "cambiar titulo") || contains_str(&lower, "cambia el título")
        || contains_str(&lower, "cambia título") || contains_str(&lower, "cambia titulo") || (
    has_cambiar && has_titulo) || (has_titulo && (has_por || has_a));
    let title = if p.original_date.is_some() && !changing {
        cur.title.clone()
    } else if p.title.unicode_len() == 0 {
        cur.title.clone()
    } else {
        p.title.clone()
    };
    let participante = contains_str(&lower, "participante");
    let keep_people = (contains_str(&lower, "mismo") && participante) || (contains_str(
        &lower,
        "misma",
    ) && participante) || (contains_str(&lower, "mismos") && participante);
    let attendees = if keep_people {
        clone_opt_strings(&cur.attendees)
    } else if p.attendees.is_some() {
        clone_opt_strings(&p.attendees)
    } else {
        clone_opt_strings(&cur.attendees)
    };
    let description = match &p.description {
        Some(d) => Some(d.clone()),
        None => clone_opt_string(&cur.description),
    };
    let location = match &p.location {
        Some(l) => Some(l.clone()),
        None => clone_opt_string(&cur.location),
    };
    Ok(
        CreateEventRequest {
            title,
            start: fs,
            end: fe,
            description,
            location,
            is_all_day: fa,
            attendees,
        },
    )
}

// ------------------------------------------------------------------
// The request that creates an event
// ------------------------------------------------------------------

/// Opens the answer for a new event dated before today.
pub const PAST_HEAD: &'static str = "⚠️ La fecha del evento (";

/// Follows the event's date in that answer.
pub const PAST_MIDDLE: &'static str = ") es anterior a la fecha actual (";

/// Closes that answer.
pub const PAST_TAIL: &'static str = "). Por favor, verifica la fecha o confirma si realmente quieres crear un evento en el pasado.";

/// `a` comes before `b` in the calendar.
pub open spec fn date_before(a: CalendarDate, b: CalendarDate) -> bool {
    a.year < b.year || (a.year == b.year && (a.month < b.month || (a.month == b.month && a.day
        < b.day)))
}

/// The new event's start date reads as a day before `today`.
pub open spec fn starts_in_past(p: ParsedEvent, today: CalendarDate) -> bool {
    match opt_view(p.start_date) {
        Some(s) => match parsed_date(s, YMD@) {
            Some(d) => date_before(d, today),
            None => false,
        },
        None => false,
    }
}

/// The answer for a new event dated before today.
pub open spec fn past_date_message(start: Seq<char>, today: Seq<char>) -> Seq<char> {
    PAST_HEAD@ + start + PAST_MIDDLE@ + today + PAST_TAIL@
}

/// Start and end of a new event: its dates for an all-day event, else its
/// times (09:00 and 10:00 when not given) in local time as RFC 3339 UTC texts.
pub open spec fn create_times(p: ParsedEvent, today: CalendarDate) -> Result<
    (Seq<char>, Seq<char>),
    Seq<char>,
> {
    let sd = or_text(opt_view(p.start_date), date_text(today));
    let ed = or_text(opt_view(p.end_date), sd);
    if p.is_all_day {
        Ok((sd, ed))
    } else {
        let s_text = date_and_time(sd, or_text(opt_view(p.start_time), DEFAULT_START_TIME@));
        let e_text = date_and_time(ed, or_text(opt_view(p.end_time), DEFAULT_END_TIME@));
        match local_parsed(s_text, YMD_HM@) {
            None => Err(START_PARSE_HEAD@ + local_parse_error(s_text, YMD_HM@)),
            Some(s) => match local_parsed(e_text, YMD_HM@) {
                None => Err(END_PARSE_HEAD@ + local_parse_error(e_text, YMD_HM@)),
                Some(e) => utc_pair(s, e),
            },
        }
    }
}

fn date_before_exec(a: CalendarDate, b: CalendarDate) -> (r: bool)
    ensures
        r == date_before(a, b),
{
    a.year < b.year || (a.year == b.year && (a.month < b.month || (a.month == b.month && a.day
        < b.day)))
}

/// The request that creates the event the parsed instruction describes;
/// refused for a start date before `today`.
pub fn plan_create(p: &ParsedEvent, today: CalendarDate) -> (r: Result<CreateEventRequest, String>)
    ensures
        starts_in_past(*p, today) ==> (r matches Err(m) && m@ == past_date_message(
            p.start_date->0@,
            date_text(today),
        )),
        !starts_in_past(*p, today) ==> match create_times(*p, today) {
            Ok((s, e)) => (r matches Ok(req) && req.start@ == s && req.end@ == e && req.title@
                == p.title@ && req.is_all_day == p.is_all_day && opt_view(req.description)
                == opt_view(p.description) && opt_view(req.location) == opt_view(p.location)
                && opt_strings_view(req.attendees) == opt_strings_view(p.attendees)),
            Err(m) => (r matches Err(x) && x@ == m),
        },
{
    let today_s = format_date(today);
    match &p.start_date {
        Some(sd) => match parse_date(sd.as_str(), YMD) {
            Some(d) => {
                if date_before_exec(d, today) {
                    let mut out: Vec<char> = Vec::new();
                    push_str(&mut out, PAST_HEAD);
                    push_str(&mut out, sd.as_str());
                    push_str(&mut out, PAST_MIDDLE);
                    push_str(&mut out, today_s.as_str());
                    push_str(&mut out, PAST_TAIL);
                    return Err(string_of(&out));
                }
            },
            None => {},
        },
        None => {},
    }
    let sd = text_or(&p.start_date, &today_s);
    let ed = text_or(&p.end_date, &sd);
    let (start, end) = if p.is_all_day {
        (sd, ed)
    } else {
        let st = text_or(&p.start_time, &String::from_str(DEFAULT_START_TIME));
        let et = text_or(&p.end_time, &String::from_str(DEFAULT_END_TIME));
        let s_text = date_and_time_of(&sd, &st);
        let e_text = date_and_time_of(&ed, &et);
        let s = match parse_local(s_text.as_str(), YMD_HM) {
            Ok(l) => l,
            Err(e) => {
                return Err(with_head(START_PARSE_HEAD, &e));
            },
        };
        let e = match parse_local(e_text.as_str(), YMD_HM) {
            Ok(l) => l,
            Err(e) => {
                return Err(with_head(END_PARSE_HEAD, &e));
            },
        };
        match utc_pair_of(s, e) {
            Ok(x) => x,
            Err(m) => {
                return Err(m);
            },
        }
    };
    Ok(
        CreateEventRequest {
            title: p.title.clone(),
            start,
            end,
            description: clone_opt_string(&p.description),
            location: clone_opt_string(&p.location),
            is_all_day: p.is_all_day,
            attendees: clone_opt_strings(&p.attendees),
        },
    )
}

// ------------------------------------------------------------------
// Laws
// ------------------------------------------------------------------

/// When the instruction mentions a date, every event shown to the model as
/// context starts on that date.
pub proof fn law_context_events_start_on_date(evs: Seq<CalendarEvent>, day: Seq<char>)
    ensures
        forall|i: int|
            0 <= i < events_on(evs, day).len() ==> start_day(#[trigger] events_on(evs, day)[i])
                == day,
        events_on(evs, day).len() == count_on_day(evs, day),
    decreases evs.len(),
{
    if evs.len() > 0 {
        law_context_events_start_on_date(evs.drop_last(), day);
    }
}

/// An update never turns a timed event into an all-day one.
pub proof fn law_timed_event_stays_timed(
    p: ParsedEvent,
    cur: CalendarEvent,
    lower: Seq<char>,
    today: Seq<char>,
)
    requires
        !cur.is_all_day,
    ensures
        update_times(p, cur, lower, today) matches Some(Ok((s, e, all))) ==> !all,
{
}

/// Asked to keep the times, an update keeps whether the event lasts all day.
pub proof fn law_kept_timing_keeps_all_day(
    p: ParsedEvent,
    cur: CalendarEvent,
    lower: Seq<char>,
    today: Seq<char>,
)
    requires
        keeps_timing(lower),
    ensures
        update_times(p, cur, lower, today) matches Some(Ok((s, e, all))) ==> all
            == cur.is_all_day,
{
}

/// Moving an all-day event that stays all-day keeps its number of days. The
/// event as listed ends on Google's exclusive end, `oe`, so it lasts
/// `days_from_to(os, oe)` days; the request carries an inclusive end, that
/// many days less one after the new start (the new start itself for a
/// one-day event), and the body sent adds the day after it.
pub proof fn law_all_day_move_keeps_length(
    p: ParsedEvent,
    cur: CalendarEvent,
    lower: Seq<char>,
    today: Seq<char>,
    sd: CalendarDate,
    os: CalendarDate,
    oe: CalendarDate,
)
    requires
        cur.is_all_day,
        update_all_day(p, cur, lower),
        parsed_date(update_start_date(p, cur, today), YMD@) == Some(sd),
        parsed_date(cur.start@, YMD@) == Some(os),
        parsed_date(cur.end@, YMD@) == Some(oe),
    ensures
        days_from_to(os, oe) <= 1 ==> update_times(p, cur, lower, today) == Some(
            Ok::<(Seq<char>, Seq<char>, bool), Seq<char>>(
                (update_start_date(p, cur, today), update_start_date(p, cur, today), true),
            ),
        ),
        days_from_to(os, oe) > 1 ==> update_times(p, cur, lower, today) == match days_added(
            sd,
            (days_from_to(os, oe) - 1) as i64,
        ) {
            Some(e) => Some(
                Ok::<(Seq<char>, Seq<char>, bool), Seq<char>>(
                    (update_start_date(p, cur, today), date_text(e), true),
                ),
            ),
            None => None,
        },
{
}

/// Moving a timed event with its times kept keeps its length: it starts at
/// its old time of day on the new date and ends as long after that as it
/// used to.
pub proof fn law_kept_times_keep_length(
    p: ParsedEvent,
    cur: CalendarEvent,
    lower: Seq<char>,
    today: Seq<char>,
    a: ZonedDateTime,
    b: ZonedDateTime,
    sn: LocalDateTime,
    en: LocalDateTime,
    x: LocalDateTime,
    y: LocalDateTime,
)
    requires
        !cur.is_all_day,
        keeps_timing(lower),
        rfc3339_parsed(cur.start@) == Some(a),
        rfc3339_parsed(cur.end@) == Some(b),
        timed_span(
            p,
            cur,
            update_start_date(p, cur, today),
            update_end_date(p, cur, update_start_date(p, cur, today)),
            true,
        ) matches Some(Ok(_)),
        local_parsed(date_and_time(update_start_date(p, cur, today), hms_text(a.local)), YMD_HMS@)
            == Some(sn),
        span_shifted(sn, a, b) == Some(en),
        utc_of_local(sn, LOCAL_OFFSET_SECONDS) == Some(x),
        utc_of_local(en, LOCAL_OFFSET_SECONDS) == Some(y),
    ensures
        update_times(p, cur, lower, today) == Some(
            Ok::<(Seq<char>, Seq<char>, bool), Seq<char>>(
                (rfc3339_text(x), rfc3339_text(y), false),
            ),
        ),
{
}


/// `date_before` is the calendar's order: no date comes before itself, the
/// order is transitive and total on distinct dates, and every date comes
/// before the day after it.
pub proof fn law_date_before_is_chronological(a: CalendarDate, b: CalendarDate, c: CalendarDate)
    ensures
        !date_before(a, a),
        date_before(a, b) && date_before(b, c) ==> date_before(a, c),
        a != b ==> (date_before(a, b) || date_before(b, a)),
        !(date_before(a, b) && date_before(b, a)),
        valid_date(a) && next_date_spec(a) is Some ==> date_before(a, next_date_spec(a)->0),
{
}

/// An event dated today is not in the past: when the new event's start date
/// reads as today's date, the creation is not refused as past; it is refused
/// only for a day strictly before today.
pub proof fn law_today_is_not_past(p: ParsedEvent, today: CalendarDate)
    ensures
        (p.start_date is Some && parsed_date(p.start_date->0@, YMD@) == Some(today)) ==> !starts_in_past(
            p,
            today,
        ),
        starts_in_past(p, today) ==> (p.start_date is Some && parsed_date(p.start_date->0@, YMD@)
            is Some && parsed_date(p.start_date->0@, YMD@)->0 != today),
{
    law_date_before_is_chronological(today, today, today);
}

/// The model's explicit action wins: "delete" always deletes and "edit"
/// always edits, whatever original date it gave; only without either does an
/// original date make it an edit.
pub proof fn law_explicit_action_is_respected(p: ParsedEvent)
    ensures
        opt_view(p.action) == Some("delete"@) ==> chosen_action(p) == NlAction::Delete,
        opt_view(p.action) == Some("edit"@) ==> chosen_action(p) == NlAction::Edit,
        opt_view(p.action) != Some("delete"@) && opt_view(p.action) != Some("edit"@)
            && p.original_date is Some ==> chosen_action(p) == NlAction::Edit,
        opt_view(p.action) != Some("delete"@) && opt_view(p.action) != Some("edit"@)
            && p.original_date is None ==> chosen_action(p) == NlAction::Create,
{
    reveal_strlit("delete");
    reveal_strlit("edit");
    assert(DELETE_ACTION@ == "delete"@);
    assert(EDIT_ACTION@ == "edit"@);
}

/// An end time the model gave is kept: when the instruction does not ask to
/// keep the times and the model gave the end time `t`, a timed update ends at
/// `t` on the end date, that wall-clock time (UTC-3) written in RFC 3339 UTC.
pub proof fn law_given_end_time_is_kept(
    p: ParsedEvent,
    cur: CalendarEvent,
    lower: Seq<char>,
    today: Seq<char>,
    t: Seq<char>,
)
    requires
        !keeps_timing(lower),
        opt_view(p.end_time) == Some(t),
    ensures
        update_times(p, cur, lower, today) matches Some(Ok((s, e, all))) ==> !all && match local_parsed(
            or_text(
                opt_view(p.end_date),
                day_or(cur.end@, cur.is_all_day, update_start_date(p, cur, today)),
            ) + " "@ + t,
            "%Y-%m-%d %H:%M"@,
        ) {
            Some(l) => match utc_of_local(l, -10800i32) {
                Some(u) => e == rfc3339_text(u),
                None => false,
            },
            None => false,
        },
{
    reveal_strlit("%Y-%m-%d %H:%M");
    assert(YMD_HM@ == "%Y-%m-%d %H:%M"@);
    assert(LOCAL_OFFSET_SECONDS == -10800i32);
}

} // verus!
