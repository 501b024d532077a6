use ofimatia::assistant::{
    api_failure_message, check_groq_key, clean_model_reply, events_context, first_choice,
    require_event_reference, resolve_title, system_prompt, user_prompt, ModelReply, ParsedEvent,
    RecentEventRef, GROQ_KEY_MISSING_MESSAGE, NO_REPLY_MESSAGE, UNTITLED_EVENT,
};
use ofimatia::prompts::{CONTEXT_HEAD, CONTEXT_RULES};

fn s(x: &str) -> Option<String> {
    Some(x.to_string())
}

fn parsed(action: Option<&str>, event_id: Option<&str>) -> ParsedEvent {
    ParsedEvent {
        title: "Reunión".to_string(),
        start_date: None,
        start_time: None,
        end_date: None,
        end_time: None,
        is_all_day: false,
        description: None,
        location: None,
        attendees: None,
        action: action.map(|a| a.to_string()),
        event_id: event_id.map(|a| a.to_string()),
        original_date: None,
    }
}

fn recent() -> Option<Vec<RecentEventRef>> {
    Some(vec![
        RecentEventRef { id: s("a1"), date: s("2024-02-20"), title: s("Dentista") },
        RecentEventRef { id: s("b2"), date: s("2024-02-21"), title: None },
        RecentEventRef { id: s("c3"), date: s("2024-02-21"), title: s("Cine") },
    ])
}

#[test]
fn groq_key_must_be_real() {
    assert_eq!(check_groq_key(""), Err(GROQ_KEY_MISSING_MESSAGE.to_string()));
    assert_eq!(check_groq_key("TU_API_KEY_GROQ"), Err(GROQ_KEY_MISSING_MESSAGE.to_string()));
    assert_eq!(check_groq_key("gsk_123"), Ok(()));
}

#[test]
fn context_block_wraps_the_events() {
    assert_eq!(events_context(None), "");
    let c = events_context(Some("[]"));
    assert_eq!(c, format!("{}[]{}", CONTEXT_HEAD, CONTEXT_RULES));
    assert!(c.starts_with("\n\nEVENTOS RECIENTES (para referencia y edición):\n[]\n\nINSTRUCCIONES CRÍTICAS"));
    assert!(c.ends_with("\"24-02-2026\" → \"2026-02-24\""));
}

#[test]
fn system_prompt_names_the_date_twice() {
    let p = system_prompt("2024-05-10", "<ctx>");
    assert!(p.starts_with("Eres un asistente que extrae información de eventos de calendario"));
    assert!(p.contains("IMPORTANTE: La fecha actual es 2024-05-10. Usa esta fecha"));
    assert!(p.contains("   - FECHA ACTUAL: 2024-05-10 (úsala como referencia absoluta)"));
    assert!(p.contains("{\n  \"title\": \"Título del evento\""));
    assert!(!p.contains("{{"));
    assert!(p.ends_with("o una fecha más específica.\"}<ctx>"));
}

#[test]
fn user_prompt_quotes_the_instruction() {
    assert_eq!(
        user_prompt("crea un evento mañana"),
        "Extrae la información del evento de esta instrucción: \"crea un evento mañana\""
    );
}

#[test]
fn failures_and_choices() {
    assert_eq!(api_failure_message("429 Too Many Requests", "slow"), "Error de Groq API: 429 Too Many Requests - slow");
    assert_eq!(first_choice(&vec!["a".to_string(), "b".to_string()]), Ok("a".to_string()));
    assert_eq!(first_choice(&vec![]), Err(NO_REPLY_MESSAGE.to_string()));
}

#[test]
fn reply_loses_fences_and_space() {
    assert_eq!(clean_model_reply("  ```json\n{\"a\":1}\n```  "), "{\"a\":1}");
    assert_eq!(clean_model_reply("```json```json {} ``````"), "{}");
    assert_eq!(clean_model_reply("```\n[1]\n```"), "[1]");
    assert_eq!(clean_model_reply("{}"), "{}");
}

#[test]
fn title_kept_when_given() {
    let reply = ModelReply { title: s("Fiesta"), action: s("edit"), event_id: s("a1"), original_date: None };
    assert_eq!(resolve_title(&reply, &recent()), "Fiesta");
}

#[test]
fn edit_title_recovered_by_id_then_date() {
    let by_id = ModelReply { title: None, action: s("edit"), event_id: s("a1"), original_date: s("2024-02-21") };
    assert_eq!(resolve_title(&by_id, &recent()), "Dentista");
    let by_date = ModelReply { title: s(""), action: s("edit"), event_id: s("zz"), original_date: s("2024-02-21") };
    assert_eq!(resolve_title(&by_date, &recent()), UNTITLED_EVENT);
    let by_date2 = ModelReply { title: s(""), action: s("edit"), event_id: None, original_date: s("2024-02-20") };
    assert_eq!(resolve_title(&by_date2, &recent()), "Dentista");
}

#[test]
fn untitled_when_nothing_recovered() {
    let create = ModelReply { title: None, action: s("create"), event_id: s("a1"), original_date: None };
    assert_eq!(resolve_title(&create, &recent()), "Evento sin título");
    let no_recent = ModelReply { title: None, action: s("edit"), event_id: s("a1"), original_date: None };
    assert_eq!(resolve_title(&no_recent, &None), "Evento sin título");
}

#[test]
fn edits_and_deletions_need_an_event() {
    assert_eq!(
        require_event_reference(&parsed(Some("edit"), None)),
        Err("⚠️ La IA intentó edit un evento pero no proporcionó un event_id. Por favor, sé más específico mencionando el título exacto del evento o la fecha exacta del evento que quieres editar.".to_string())
    );
    assert_eq!(
        require_event_reference(&parsed(Some("delete"), None)),
        Err("⚠️ La IA intentó delete un evento pero no proporcionó un event_id. Por favor, sé más específico mencionando el título exacto del evento o la fecha exacta del evento que quieres eliminar.".to_string())
    );
    assert_eq!(require_event_reference(&parsed(Some("edit"), Some("x"))), Ok(()));
    assert_eq!(require_event_reference(&parsed(Some("create"), None)), Ok(()));
    assert_eq!(require_event_reference(&parsed(None, None)), Ok(()));
}
