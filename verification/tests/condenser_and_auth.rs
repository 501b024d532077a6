use ofimatia::condenser::{memory_access_check, saved_ids, summary_save_answer};
use ofimatia::condenser::{
    extract_knowledge_entry, extract_tags, extract_title, generate_simple_summary,
    knowledge_drafts, summary_draft, KnowledgeType,
};
use ofimatia::oauth::{
    callback_outcome, callback_page, check_credentials, compute_expires_at,
    create_error_response, create_success_response, extract_code_from_request,
    extract_error_from_request, CallbackOutcome, CLIENT_ID_PLACEHOLDER, ERROR_HTML,
    MISSING_CREDENTIALS_MESSAGE, SUCCESS_HTML,
};
use ofimatia::tokens::{has_valid_token, request_access_token, TokenData, NO_TOKEN_MESSAGE, TOKEN_EXPIRED_MESSAGE};

fn token(expires_at: i64) -> TokenData {
    TokenData { access_token: "acc".to_string(), refresh_token: "ref".to_string(), expires_at }
}

#[test]
fn simple_summary_joins_first_three_lines() {
    let s = generate_simple_summary("línea uno\nlínea dos\r\nlínea tres\nlínea cuatro");
    assert_eq!(s, "línea uno línea dos línea tres");
}

#[test]
fn simple_summary_cuts_long_text_at_200_bytes() {
    let text = "a".repeat(250);
    let s = generate_simple_summary(&text);
    assert_eq!(s, format!("{}...", "a".repeat(200)));
}

#[test]
fn simple_summary_of_empty_text_is_empty() {
    assert_eq!(generate_simple_summary(""), "");
}

#[test]
fn tags_follow_keywords_in_order() {
    let tags = extract_tags("Usamos Rust y SQLite en Tauri para el Calendario de eventos");
    assert_eq!(tags, vec!["calendario", "eventos", "rust", "sqlite", "tauri"]);
}

#[test]
fn tags_for_oauth_and_nothing_else() {
    assert_eq!(extract_tags("Configurar OAuth"), vec!["oauth"]);
    assert!(extract_tags("nada que ver").is_empty());
}

#[test]
fn title_is_first_question_line() {
    let t = extract_title("  ¿Cómo conecto?  \nsegunda línea más larga");
    assert_eq!(t, "¿Cómo conecto?");
}

#[test]
fn title_skips_speaker_lines() {
    let t = extract_title("User: necesito ayuda urgente\nAI: claro que sí, dime");
    assert_eq!(t, "User: necesito ayuda urgente AI:...");
}

#[test]
fn title_takes_medium_line() {
    let t = extract_title("corto\nEsta es una línea de título");
    assert_eq!(t, "Esta es una línea de título");
}

#[test]
fn knowledge_entry_prefixes_type() {
    let (title, content, summary) =
        extract_knowledge_entry("¿Qué pasó?\nmucho", "bug resuelto", "bugfix").unwrap();
    assert_eq!(title, "bug resuelto: ¿Qué pasó?");
    assert_eq!(content, "¿Qué pasó?\nmucho");
    assert_eq!(summary, "¿Qué pasó? mucho");
}

#[test]
fn knowledge_drafts_one_per_kind_in_order() {
    let text = "decidimos arreglar un bug con un patrón";
    let drafts = knowledge_drafts(text);
    assert_eq!(drafts.len(), 3);
    assert!(drafts[0].kind == KnowledgeType::Decision);
    assert!(drafts[1].kind == KnowledgeType::BugFix);
    assert!(drafts[2].kind == KnowledgeType::Pattern);
    assert_eq!(drafts[0].tags, vec!["arquitectura", "decisión"]);
    assert_eq!(drafts[1].tags, vec!["bug", "solución"]);
    assert_eq!(drafts[2].tags, vec!["patrón"]);
    assert!(drafts[1].title.starts_with("bug resuelto: "));
    assert!(knowledge_drafts("hola").is_empty());
}

#[test]
fn summary_draft_collects_title_summary_tags() {
    let d = summary_draft("¿Usamos rust?\nsí");
    assert!(d.kind == KnowledgeType::Summary);
    assert_eq!(d.title, "¿Usamos rust?");
    assert_eq!(d.summary, "¿Usamos rust? sí");
    assert_eq!(d.tags, vec!["rust"]);
    assert_eq!(d.content, "¿Usamos rust?\nsí");
}

#[test]
fn code_is_read_from_get_line() {
    let req = "GET /oauth/callback?code=abc123&scope=x HTTP/1.1\r\nHost: x\r\n\r\n";
    assert_eq!(extract_code_from_request(req), Some("abc123".to_string()));
}

#[test]
fn code_runs_to_end_of_line_without_ampersand() {
    let req = "GET /oauth/callback?code=abc HTTP/1.1\r\n";
    assert_eq!(extract_code_from_request(req), Some("abc HTTP/1.1".to_string()));
    assert_eq!(extract_code_from_request("POST /?code=x\r\n"), None);
    assert_eq!(extract_code_from_request("GET /oauth/callback HTTP/1.1\r\n"), None);
}

#[test]
fn error_skips_one_character_after_the_equals_sign() {
    let req = "GET /oauth/callback?error=access_denied&state=1 HTTP/1.1\r\n";
    assert_eq!(extract_error_from_request(req), Some("ccess_denied".to_string()));
    assert_eq!(extract_error_from_request("GET /?code=1\r\n"), None);
}

#[test]
fn success_response_has_length_header() {
    let r = create_success_response();
    let head = format!(
        "HTTP/1.1 200 OK\r\nContent-Type: text/html; charset=utf-8\r\nContent-Length: {}\r\n\r\n",
        SUCCESS_HTML.len()
    );
    assert_eq!(r, format!("{}{}", head, SUCCESS_HTML));
}

#[test]
fn error_response_has_length_header() {
    let r = create_error_response();
    let head = format!(
        "HTTP/1.1 200 OK\r\nContent-Type: text/html; charset=utf-8\r\nContent-Length: {}\r\n\r\n",
        ERROR_HTML.len()
    );
    assert_eq!(r, format!("{}{}", head, ERROR_HTML));
}

#[test]
fn callback_prefers_code_then_error() {
    match callback_outcome(Some("c1"), Some("e")) {
        CallbackOutcome::Code(c) => assert_eq!(c, "c1"),
        _ => panic!("expected a code"),
    }
    let denied = callback_outcome(None, Some("denied"));
    assert!(matches!(denied, CallbackOutcome::Denied(_)));
    assert_eq!(callback_page(&denied), ERROR_HTML);
    assert_eq!(callback_page(&CallbackOutcome::Code("x".to_string())), SUCCESS_HTML);
}

#[test]
fn credentials_placeholders_are_refused() {
    assert_eq!(
        check_credentials(CLIENT_ID_PLACEHOLDER, "secret"),
        Err(MISSING_CREDENTIALS_MESSAGE.to_string())
    );
    assert_eq!(check_credentials("id", "secret"), Ok(()));
}

#[test]
fn expiry_is_now_plus_lifetime() {
    assert_eq!(compute_expires_at(Some(3600), 1_000), 4_600);
    assert_eq!(compute_expires_at(None, 1_000), 0);
}

#[test]
fn token_validity_rules() {
    assert_eq!(has_valid_token(Ok(Some(token(0))), 100), Ok(true));
    assert_eq!(has_valid_token(Ok(Some(token(200))), 100), Ok(true));
    assert_eq!(has_valid_token(Ok(Some(token(100))), 100), Ok(false));
    assert_eq!(has_valid_token(Ok(None), 100), Ok(false));
    assert_eq!(
        has_valid_token(Err("db".to_string()), 100),
        Err("Error al verificar token: db".to_string())
    );
}

#[test]
fn access_token_rules() {
    assert_eq!(request_access_token(Ok(Some(token(50))), 100), Err(TOKEN_EXPIRED_MESSAGE.to_string()));
    assert_eq!(request_access_token(Ok(Some(token(100))), 100), Ok("acc".to_string()));
    assert_eq!(request_access_token(Ok(Some(token(0))), 100), Ok("acc".to_string()));
    assert_eq!(request_access_token(Ok(None), 100), Err(NO_TOKEN_MESSAGE.to_string()));
    assert_eq!(
        request_access_token(Err("x".to_string()), 100),
        Err("Error al obtener token: x".to_string())
    );
}

#[test]
fn connected_token_is_accepted() {
    for (exp, now) in [(0i64, 5i64), (10, 5), (5, 5)] {
        if has_valid_token(Ok(Some(token(exp))), now) == Ok(true) {
            assert!(request_access_token(Ok(Some(token(exp))), now).is_ok());
        }
    }
}

#[test]
fn tags_ignore_letter_case() {
    let a = extract_tags("RUST y SQLite con TAURI y Eventos del CALENDAR");
    let b = extract_tags("rust y sqlite con tauri y eventos del calendar");
    assert_eq!(a, b);
    assert_eq!(a, vec!["calendario", "eventos", "rust", "sqlite", "tauri"]);
}

#[test]
fn saves_are_answered() {
    assert_eq!(saved_ids(&vec![Ok(3), Err("x".to_string()), Ok(7)]), vec![3, 7]);
    assert!(saved_ids(&vec![]).is_empty());
    assert_eq!(summary_save_answer(Ok(9)), Ok(9));
    assert_eq!(summary_save_answer(Err("disco lleno".to_string())), Err("Error al guardar resumen: disco lleno".to_string()));
    assert_eq!(memory_access_check(true, true), Ok(()));
    assert_eq!(memory_access_check(false, true), Err("No se pudo acceder al módulo de memoria".to_string()));
    assert_eq!(memory_access_check(true, false), Err("Módulo de memoria no inicializado".to_string()));
}
