//! The language-model step: the prompts sent to Groq, how its answer is
//! cleaned, how a missing title is recovered from the recent events, and the
//! check that an edit or a deletion names the event it is about.

use vstd::prelude::*;
use vstd::string::*;
use crate::text::{
    append_chars, chars_eq, chars_of, push_str, slice_chars, starts_with_seq, starts_with_str,
    ends_with_seq, ends_with_str, string_of, trim_chars, trim_seq,
};
use crate::calendar::{clone_opt_string, opt_view};
use crate::prompts::{CONTEXT_HEAD, CONTEXT_RULES, SYSTEM_DATE_RULES, SYSTEM_INTRO, SYSTEM_RULES};

verus! {

/// Groq's chat-completions endpoint.
pub const GROQ_API_URL: &'static str = "https://api.groq.com/openai/v1/chat/completions";

/// The model that reads the instructions.
pub const GROQ_MODEL: &'static str = "llama-3.1-8b-instant";

/// The key used when none is configured; it is never sent.
pub const GROQ_KEY_PLACEHOLDER: &'static str = "TU_API_KEY_GROQ";

/// Answer when no usable Groq key is configured.
pub const GROQ_KEY_MISSING_MESSAGE: &'static str = "API key de Groq no configurada. Por favor configura GROQ_API_KEY en un archivo .env o como variable de entorno. Obtén una gratis en https://console.groq.com/";

/// Opens the user message.
pub const USER_PROMPT_HEAD: &'static str = "Extrae la información del evento de esta instrucción: \"";

/// Closes the user message.
pub const USER_PROMPT_TAIL: &'static str = "\"";

/// Title given to an event when the model gave none and none could be recovered.
pub const UNTITLED_EVENT: &'static str = "Evento sin título";

/// Answer when the model's reply holds no choice.
pub const NO_REPLY_MESSAGE: &'static str = "No se recibió respuesta de Groq";

/// Opens the message for an HTTP failure of the Groq API.
pub const API_FAILURE_HEAD: &'static str = "Error de Groq API: ";

/// The model's word for editing an event.
pub const EDIT_ACTION: &'static str = "edit";

/// The model's word for deleting an event.
pub const DELETE_ACTION: &'static str = "delete";

/// Opens the message for an edit or deletion that names no event.
pub const MISSING_ID_HEAD: &'static str = "⚠️ La IA intentó ";

/// Middle of the message for an edit or deletion that names no event.
pub const MISSING_ID_MIDDLE: &'static str = " un evento pero no proporcionó un event_id. Por favor, sé más específico mencionando el título exacto del evento o la fecha exacta del evento que quieres ";

/// The verb for an edit, in the message above.
pub const VERB_EDIT: &'static str = "editar";

/// The verb for a deletion, in the message above.
pub const VERB_DELETE: &'static str = "eliminar";

/// Code fence that opens a JSON block.
pub const FENCE_JSON: &'static str = "```json";

/// Code fence.
pub const FENCE: &'static str = "```";

// ------------------------------------------------------------------
// The key
// ------------------------------------------------------------------

/// The key can be used: it is neither empty nor the placeholder.
pub open spec fn groq_key_usable(key: Seq<char>) -> bool {
    key.len() > 0 && key != GROQ_KEY_PLACEHOLDER@
}

/// Refuses an empty key and the placeholder.
pub fn check_groq_key(key: &str) -> (r: Result<(), String>)
    ensures
        r is Ok <==> groq_key_usable(key@),
        r matches Err(m) ==> m@ == GROQ_KEY_MISSING_MESSAGE@,
{
    let k = chars_of(key);
    let p = chars_of(GROQ_KEY_PLACEHOLDER);
    if chars_eq(&k, &p) || k.len() == 0 {
        Err(String::from_str(GROQ_KEY_MISSING_MESSAGE))
    } else {
        Ok(())
    }
}

// ------------------------------------------------------------------
// Prompts
// ------------------------------------------------------------------

/// The context block for the recent events (a JSON list), empty without them.
pub open spec fn events_context_spec(recent: Option<Seq<char>>) -> Seq<char> {
    match recent {
        Some(j) => CONTEXT_HEAD@ + j + CONTEXT_RULES@,
        None => Seq::empty(),
    }
}

/// The context block that tells the model about the recent events.
pub fn events_context(recent: Option<&str>) -> (s: String)
    ensures
        s@ == events_context_spec(match recent {
            Some(j) => Some(j@),
            None => None,
        }),
{
    match recent {
        Some(j) => {
            let mut out: Vec<char> = Vec::new();
            push_str(&mut out, CONTEXT_HEAD);
            push_str(&mut out, j);
            push_str(&mut out, CONTEXT_RULES);
            string_of(&out)
        },
        None => String::new(),
    }
}

/// The system prompt: the rules, with the current date written in twice and
/// the context block at the end.
pub open spec fn system_prompt_spec(current_date: Seq<char>, context: Seq<char>) -> Seq<char> {
    SYSTEM_INTRO@ + current_date + SYSTEM_DATE_RULES@ + current_date + SYSTEM_RULES@ + context
}

/// Builds the system prompt.
pub fn system_prompt(current_date: &str, context: &str) -> (s: String)
    ensures
        s@ == system_prompt_spec(current_date@, context@),
{
    let mut out: Vec<char> = Vec::new();
    push_str(&mut out, SYSTEM_INTRO);
    push_str(&mut out, current_date);
    push_str(&mut out, SYSTEM_DATE_RULES);
    push_str(&mut out, current_date);
    push_str(&mut out, SYSTEM_RULES);
    push_str(&mut out, context);
    string_of(&out)
}

/// The user message: the instruction, quoted.
pub open spec fn user_prompt_spec(instruction: Seq<char>) -> Seq<char> {
    USER_PROMPT_HEAD@ + instruction + USER_PROMPT_TAIL@
}

/// Builds the user message.
pub fn user_prompt(instruction: &str) -> (s: String)
    ensures
        s@ == user_prompt_spec(instruction@),
{
    let mut out: Vec<char> = Vec::new();
    push_str(&mut out, USER_PROMPT_HEAD);
    push_str(&mut out, instruction);
    push_str(&mut out, USER_PROMPT_TAIL);
    string_of(&out)
}

/// The message for an HTTP failure: the status line and the body.
pub open spec fn api_failure_spec(status: Seq<char>, body: Seq<char>) -> Seq<char> {
    API_FAILURE_HEAD@ + status + " - "@ + body
}

/// Builds the message for an HTTP failure of the Groq API.
pub fn api_failure_message(status: &str, body: &str) -> (s: String)
    ensures
        s@ == api_failure_spec(status@, body@),
{
    let mut out: Vec<char> = Vec::new();
    push_str(&mut out, API_FAILURE_HEAD);
    push_str(&mut out, status);
    push_str(&mut out, " - ");
    push_str(&mut out, body);
    string_of(&out)
}

/// The text of the first choice of the reply.
pub fn first_choice(contents: &Vec<String>) -> (r: Result<String, String>)
    ensures
        r is Ok <==> contents@.len() > 0,
        r matches Ok(t) ==> t@ == contents@[0]@,
        r matches Err(m) ==> m@ == NO_REPLY_MESSAGE@,
{
    if contents.len() > 0 {
        Ok(contents[0].clone())
    } else {
        Err(String::from_str(NO_REPLY_MESSAGE))
    }
}

// ------------------------------------------------------------------
// Cleaning the reply
// ------------------------------------------------------------------

/// `s` with every leading copy of `p` removed (`str::trim_start_matches`).
pub open spec fn strip_leading(s: Seq<char>, p: Seq<char>) -> Seq<char>
    decreases s.len(),
{
    if p.len() > 0 && starts_with_seq(s, p) {
        strip_leading(s.subrange(p.len() as int, s.len() as int), p)
    } else {
        s
    }
}

/// `s` with every trailing copy of `p` removed (`str::trim_end_matches`).
pub open spec fn strip_trailing(s: Seq<char>, p: Seq<char>) -> Seq<char>
    decreases s.len(),
{
    if p.len() > 0 && ends_with_seq(s, p) {
        strip_trailing(s.subrange(0, s.len() - p.len()), p)
    } else {
        s
    }
}

/// The reply without surrounding white space and code fences.
pub open spec fn cleaned_reply(s: Seq<char>) -> Seq<char> {
    trim_seq(
        strip_trailing(
            strip_leading(strip_leading(trim_seq(s), FENCE_JSON@), FENCE@),
            FENCE@,
        ),
    )
}

fn strip_leading_chars(s: Vec<char>, p: &str) -> (out: Vec<char>)
    requires
        p@.len() > 0,
    ensures
        out@ == strip_leading(s@, p@),
{
    let mut cur = s;
    while starts_with_str(&cur, p)
        invariant
            p@.len() > 0,
            strip_leading(cur@, p@) == strip_leading(s@, p@),
        decreases cur@.len(),
    {
        let n = p.unicode_len();
        cur = slice_chars(&cur, n, cur.len());
    }
    cur
}

fn strip_trailing_chars(s: Vec<char>, p: &str) -> (out: Vec<char>)
    requires
        p@.len() > 0,
    ensures
        out@ == strip_trailing(s@, p@),
{
    let mut cur = s;
    while ends_with_str(&cur, p)
        invariant
            p@.len() > 0,
            strip_trailing(cur@, p@) == strip_trailing(s@, p@),
        decreases cur@.len(),
    {
        let n = p.unicode_len();
        cur = slice_chars(&cur, 0, cur.len() - n);
    }
    cur
}

/// Removes the white space and the Markdown code fences around the model's JSON.
pub fn clean_model_reply(text: &str) -> (s: String)
    ensures
        s@ == cleaned_reply(text@),
{
    proof {
        reveal_strlit("```json");
        reveal_strlit("```");
    }
    let c = chars_of(text);
    let t = trim_chars(&c);
    let a = strip_leading_chars(t, FENCE_JSON);
    let b = strip_leading_chars(a, FENCE);
    let e = strip_trailing_chars(b, FENCE);
    let out = trim_chars(&e);
    string_of(&out)
}

// ------------------------------------------------------------------
// Recovering a missing title
// ------------------------------------------------------------------

/// What the library reads of the model's JSON answer: each field holds the
/// member's text where the member is present and is a JSON string.
#[derive(Clone, Debug, PartialEq, Eq)]
pub struct ModelReply {
    pub title: Option<String>,
    pub action: Option<String>,
    pub event_id: Option<String>,
    pub original_date: Option<String>,
}

/// What the library reads of one recent event given to the model as context,
/// in the same way.
#[derive(Clone, Debug, PartialEq, Eq)]
pub struct RecentEventRef {
    pub id: Option<String>,
    pub date: Option<String>,
    pub title: Option<String>,
}

/// A title that is missing, not a string, or empty.
pub open spec fn lacks_title(t: Option<Seq<char>>) -> bool {
    match t {
        Some(s) => s.len() == 0,
        None => true,
    }
}

/// The title of the first recent event whose `id` (or, when `by_id` is false,
/// whose `date`) is `key`; `None` when no event has it.
pub open spec fn first_title_where(evs: Seq<RecentEventRef>, by_id: bool, key: Seq<char>) -> Option<
    Option<Seq<char>>,
>
    decreases evs.len(),
{
    if evs.len() == 0 {
        None
    } else {
        let field = if by_id {
            opt_view(evs[0].id)
        } else {
            opt_view(evs[0].date)
        };
        if field == Some(key) {
            Some(opt_view(evs[0].title))
        } else {
            first_title_where(evs.drop_first(), by_id, key)
        }
    }
}

/// The title found among the recent events for an edit whose title is
/// missing: first by event id, then by original date.
pub open spec fn recovered_title(reply: ModelReply, recent: Option<Vec<RecentEventRef>>) -> Option<
    Seq<char>,
> {
    if lacks_title(opt_view(reply.title)) && opt_view(reply.action) == Some(EDIT_ACTION@) {
        match recent {
            None => None,
            Some(v) => {
                let by_id = match opt_view(reply.event_id) {
                    Some(id) => match first_title_where(v@, true, id) {
                        Some(Some(t)) => Some(t),
                        _ => None,
                    },
                    None => None,
                };
                match by_id {
                    Some(t) => Some(t),
                    None => match opt_view(reply.original_date) {
                        Some(d) => match first_title_where(v@, false, d) {
                            Some(Some(t)) => Some(t),
                            _ => None,
                        },
                        None => None,
                    },
                }
            },
        }
    } else {
        None
    }
}

/// The title the event ends up with: the model's, else the recovered one,
/// else `UNTITLED_EVENT`.
pub open spec fn final_title(reply: ModelReply, recent: Option<Vec<RecentEventRef>>) -> Seq<char> {
    let t = match recovered_title(reply, recent) {
        Some(t) => Some(t),
        None => opt_view(reply.title),
    };
    match t {
        Some(s) => if s.len() == 0 {
            UNTITLED_EVENT@
        } else {
            s
        },
        None => UNTITLED_EVENT@,
    }
}

fn title_where(evs: &Vec<RecentEventRef>, by_id: bool, key: &String) -> (r: Option<Option<String>>)
    ensures
        match r {
            Some(t) => first_title_where(evs@, by_id, key@) == Some(opt_view(t)),
            None => first_title_where(evs@, by_id, key@) is None,
        },
{
    assert(evs@.subrange(0, evs@.len() as int) =~= evs@);
    let mut i: usize = 0;
    while i < evs.len()
        invariant
            i <= evs@.len(),
            first_title_where(evs@, by_id, key@) == first_title_where(
                evs@.subrange(i as int, evs@.len() as int),
                by_id,
                key@,
            ),
        decreases evs@.len() - i,
    {
        let ghost rest = evs@.subrange(i as int, evs@.len() as int);
        assert(rest[0] == evs@[i as int]);
        let e = &evs[i];
        let field = if by_id {
            &e.id
        } else {
            &e.date
        };
        let hit = match field {
            Some(f) => *f == *key,
            None => false,
        };
        if hit {
            return Some(clone_opt_string(&e.title));
        }
        assert(rest.drop_first() =~= evs@.subrange(i + 1, evs@.len() as int));
        i = i + 1;
    }
    assert(evs@.subrange(i as int, evs@.len() as int) =~= Seq::<RecentEventRef>::empty());
    None
}

fn lacks_title_exec(t: &Option<String>) -> (b: bool)
    ensures
        b == lacks_title(opt_view(*t)),
{
    match t {
        Some(s) => s.unicode_len() == 0,
        None => true,
    }
}

/// The title to give the parsed event: the model's when it is a non-empty
/// string; for an edit without one, the title of the recent event with the
/// same id, else with the same original date; else `UNTITLED_EVENT`.
pub fn resolve_title(reply: &ModelReply, recent: &Option<Vec<RecentEventRef>>) -> (t: String)
    ensures
        t@ == final_title(*reply, *recent),
{
    let mut recovered: Option<String> = None;
    let is_edit = match &reply.action {
        Some(a) => {
            let ac = chars_of(a.as_str());
            let ec = chars_of(EDIT_ACTION);
            chars_eq(&ac, &ec)
        },
        None => false,
    };
    if lacks_title_exec(&reply.title) && is_edit {
        match recent {
            Some(v) => {
                match &reply.event_id {
                    Some(id) => {
                        match title_where(v, true, id) {
                            Some(Some(t)) => {
                                recovered = Some(t);
                            },
                            _ => {},
                        }
                    },
                    None => {},
                }
                if recovered.is_none() {
                    match &reply.original_date {
                        Some(d) => {
                            match title_where(v, false, d) {
                                Some(Some(t)) => {
                                    recovered = Some(t);
                                },
                                _ => {},
                            }
                        },
                        None => {},
                    }
                }
            },
            None => {},
        }
    }
    assert(opt_view(recovered) == recovered_title(*reply, *recent));
    let chosen = match recovered {
        Some(t) => Some(t),
        None => clone_opt_string(&reply.title),
    };
    match chosen {
        Some(s) => {
            if s.unicode_len() == 0 {
                String::from_str(UNTITLED_EVENT)
            } else {
                s
            }
        },
        None => String::from_str(UNTITLED_EVENT),
    }
}

// ------------------------------------------------------------------
// The parsed event
// ------------------------------------------------------------------

/// An event as the language model extracted it from an instruction.
#[derive(Clone, Debug, PartialEq, Eq)]
pub struct ParsedEvent {
    pub title: String,
    /// `YYYY-MM-DD`; for an edit, the new date.
    pub start_date: Option<String>,
    /// `HH:MM`.
    pub start_time: Option<String>,
    /// `YYYY-MM-DD`.
    pub end_date: Option<String>,
    /// `HH:MM`.
    pub end_time: Option<String>,
    pub is_all_day: bool,
    pub description: Option<String>,
    pub location: Option<String>,
    pub attendees: Option<Vec<String>>,
    /// `create`, `edit`, `delete` or `error`.
    pub action: Option<String>,
    /// The event to edit or delete.
    pub event_id: Option<String>,
    /// `YYYY-MM-DD`: the date of the event to edit, when mentioned.
    pub original_date: Option<String>,
}

/// An edit or a deletion that does not say which event.
pub open spec fn lacks_reference(p: ParsedEvent) -> bool {
    p.event_id is None && (opt_view(p.action) == Some(EDIT_ACTION@) || opt_view(p.action) == Some(
        DELETE_ACTION@,
    ))
}

/// The message for such an edit or deletion.
pub open spec fn lacks_reference_message(action: Seq<char>) -> Seq<char> {
    MISSING_ID_HEAD@ + action + MISSING_ID_MIDDLE@ + (if action == EDIT_ACTION@ {
        VERB_EDIT@
    } else {
        VERB_DELETE@
    }) + "."@
}

/// Refuses an edit or a deletion that names no event.
pub fn require_event_reference(p: &ParsedEvent) -> (r: Result<(), String>)
    ensures
        r is Err <==> lacks_reference(*p),
        r matches Err(m) ==> m@ == lacks_reference_message(opt_view(p.action)->0),
{
    match &p.action {
        Some(a) => {
            let ac = chars_of(a.as_str());
            let ec = chars_of(EDIT_ACTION);
            let dc = chars_of(DELETE_ACTION);
            let is_edit = chars_eq(&ac, &ec);
            let is_delete = chars_eq(&ac, &dc);
            if (is_edit || is_delete) && p.event_id.is_none() {
                let mut out: Vec<char> = Vec::new();
                push_str(&mut out, MISSING_ID_HEAD);
                append_chars(&mut out, &ac);
                push_str(&mut out, MISSING_ID_MIDDLE);
                if is_edit {
                    push_str(&mut out, VERB_EDIT);
                } else {
                    push_str(&mut out, VERB_DELETE);
                }
                push_str(&mut out, ".");
                Err(string_of(&out))
            } else {
                Ok(())
            }
        },
        None => Ok(()),
    }
}

/// The parsed event always has a title: the title chosen is never empty.
pub proof fn law_title_never_empty(reply: ModelReply, recent: Option<Vec<RecentEventRef>>)
    ensures
        final_title(reply, recent).len() > 0,
{
    reveal_strlit("Evento sin título");
}


/// Where `i` is the first recent event with `id`, a search by id finds its title.
proof fn lemma_first_by_id(evs: Seq<RecentEventRef>, id: Seq<char>, i: int)
    requires
        0 <= i < evs.len(),
        opt_view(evs[i].id) == Some(id),
        forall|j: int| 0 <= j < i ==> opt_view(#[trigger] evs[j].id) != Some(id),
    ensures
        first_title_where(evs, true, id) == Some(opt_view(evs[i].title)),
    decreases i,
{
    if i > 0 {
        let rest = evs.drop_first();
        assert forall|j: int| 0 <= j < i - 1 implies opt_view(#[trigger] rest[j].id) != Some(id) by {
            assert(rest[j] == evs[j + 1]);
        }
        assert(rest[i - 1] == evs[i]);
        lemma_first_by_id(rest, id, i - 1);
    }
}

/// For an edit whose title is missing, the event the model named by id wins:
/// when a recent event has the model's `event_id`, the title is that of the
/// first such event (a non-empty one), whatever the original date says.
pub proof fn law_title_recovered_by_id_first(
    reply: ModelReply,
    v: Vec<RecentEventRef>,
    id: Seq<char>,
    i: int,
    t: Seq<char>,
)
    requires
        lacks_title(opt_view(reply.title)),
        opt_view(reply.action) == Some("edit"@),
        opt_view(reply.event_id) == Some(id),
        0 <= i < v@.len(),
        opt_view(v@[i].id) == Some(id),
        forall|j: int| 0 <= j < i ==> opt_view(#[trigger] v@[j].id) != Some(id),
        opt_view(v@[i].title) == Some(t),
        t.len() > 0,
    ensures
        final_title(reply, Some(v)) == t,
{
    reveal_strlit("edit");
    assert(EDIT_ACTION@ == "edit"@);
    lemma_first_by_id(v@, id, i);
}

} // verus!
