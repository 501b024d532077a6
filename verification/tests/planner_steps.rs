use ofimatia::assistant::ParsedEvent;
use ofimatia::calendar::CalendarEvent;
use ofimatia::dates::CalendarDate;
use ofimatia::planner::{
    check_date_phrase, check_fetched_date, check_target_has_events, context_events,
    edit_search_date, instance_series_id_of, after_series_fetch, deletion_answer, SeriesFetch,
    DELETED_MESSAGE, locate_edit_target, normalize_original_date, plan_create, plan_delete,
    plan_update, resolve_action, unlisted_event_message, validate_edit_target, EditTarget,
    NlAction, PlanError, DATE_PHRASE_MESSAGE, DELETE_NEEDS_ID_MESSAGE, NEED_ID_OR_DATE_MESSAGE,
};

fn s(x: &str) -> Option<String> {
    Some(x.to_string())
}

fn date(year: i32, month: u32, day: u32) -> CalendarDate {
    CalendarDate { year, month, day }
}

fn event(id: &str, title: &str, start: &str, end: &str, all_day: bool) -> CalendarEvent {
    CalendarEvent {
        id: id.to_string(),
        title: title.to_string(),
        start: start.to_string(),
        end: end.to_string(),
        description: s("desc"),
        location: None,
        is_all_day: all_day,
        attendees: Some(vec!["ana@x.com".to_string()]),
    }
}

fn blank() -> ParsedEvent {
    ParsedEvent {
        title: String::new(),
        start_date: None,
        start_time: None,
        end_date: None,
        end_time: None,
        is_all_day: false,
        description: None,
        location: None,
        attendees: None,
        action: None,
        event_id: None,
        original_date: None,
    }
}

fn calendar() -> Vec<CalendarEvent> {
    vec![
        event("d1", "Dentista", "2024-02-20", "2024-02-21", true),
        event("r1_20240220T130000Z", "Reunión", "2024-02-20T10:00:00-03:00", "2024-02-20T11:30:00-03:00", false),
        event("c1", "Cine", "2024-02-21T20:00:00-03:00", "2024-02-21T22:00:00-03:00", false),
    ]
}

#[test]
fn context_keeps_events_of_the_mentioned_day() {
    let out = context_events(&calendar(), Some(date(2024, 2, 20)));
    assert_eq!(out.len(), 2);
    assert_eq!(out[0].id, "d1");
    assert_eq!(out[0].date, "2024-02-20");
    assert_eq!(out[1].id, "r1");
    assert_eq!(out[1].original_id, "r1_20240220T130000Z");
    assert_eq!(out[1].date, "2024-02-20");
    assert!(!out[1].is_all_day);
    assert!(context_events(&calendar(), Some(date(2024, 3, 1))).is_empty());
}

#[test]
fn context_takes_twenty_without_a_date() {
    let many: Vec<CalendarEvent> = (0..25)
        .map(|i| event(&format!("e{}", i), "x", "no es fecha", "2024-01-01", false))
        .collect();
    let out = context_events(&many, None);
    assert_eq!(out.len(), 20);
    assert_eq!(out[19].id, "e19");
    assert_eq!(out[0].date, "no es fecha");
}

#[test]
fn mentioned_date_without_events_is_refused() {
    assert_eq!(
        check_target_has_events(Some(date(2024, 2, 20)), &Some(vec![])),
        Err("⚠️ No encontré ningún evento el 2024-02-20 en tu calendario. Por favor, verifica la fecha o menciona el título del evento.".to_string())
    );
    assert_eq!(check_target_has_events(Some(date(2024, 2, 20)), &None), Ok(()));
    assert_eq!(check_target_has_events(None, &Some(vec![])), Ok(()));
}

#[test]
fn actions_follow_the_model() {
    let mut p = blank();
    p.action = s("delete");
    assert_eq!(resolve_action(&p), Ok(NlAction::Delete));
    p.action = s("edit");
    assert_eq!(resolve_action(&p), Ok(NlAction::Edit));
    p.action = s("create");
    assert_eq!(resolve_action(&p), Ok(NlAction::Create));
    p.original_date = s("2024-02-20");
    assert_eq!(resolve_action(&p), Ok(NlAction::Edit));
    p.action = s("error");
    p.title = "Falta el título".to_string();
    assert_eq!(resolve_action(&p), Err("⚠️ La IA necesita más información: Falta el título".to_string()));
}

#[test]
fn deletion_needs_an_id() {
    let mut p = blank();
    assert_eq!(plan_delete(&p), Err(DELETE_NEEDS_ID_MESSAGE.to_string()));
    p.event_id = s("x1");
    assert_eq!(plan_delete(&p), Ok("x1".to_string()));
}

#[test]
fn original_dates_are_normalized() {
    assert_eq!(normalize_original_date(&"20/02/2024".to_string()), "2024-02-20");
    assert_eq!(normalize_original_date(&"02/20/2024".to_string()), "2024-02-20");
    assert_eq!(normalize_original_date(&"2024-02-20".to_string()), "2024-02-20");
    assert_eq!(normalize_original_date(&"ayer".to_string()), "ayer");
    assert_eq!(normalize_original_date(&"99/99/2024".to_string()), "99/99/2024");
}

#[test]
fn instance_ids_lose_their_suffix() {
    assert_eq!(instance_series_id_of(&"a_b_c".to_string()), "a_b");
    assert_eq!(instance_series_id_of(&"a_b".to_string()), "a_b");
    assert_eq!(instance_series_id_of(&"abc".to_string()), "abc");
}

#[test]
fn edit_found_by_original_date() {
    let mut p = blank();
    p.original_date = s("2024-02-21");
    assert_eq!(locate_edit_target(&p, &calendar()), Ok(EditTarget::Listed(2)));
}

#[test]
fn several_on_the_date_need_a_title() {
    let mut p = blank();
    p.original_date = s("20/02/2024");
    assert_eq!(
        locate_edit_target(&p, &calendar()),
        Err("Se encontraron 2 eventos con fecha 2024-02-20. Por favor, menciona también el título del evento para identificarlo correctamente.".to_string())
    );
    p.title = "Reunión".to_string();
    assert_eq!(locate_edit_target(&p, &calendar()), Ok(EditTarget::Listed(1)));
    p.title = "Otro".to_string();
    assert_eq!(
        locate_edit_target(&p, &calendar()),
        Err("Se encontraron 2 eventos con fecha 2024-02-20, pero ninguno tiene el título 'Otro'. Por favor, menciona el título exacto del evento que quieres editar.".to_string())
    );
}

#[test]
fn no_event_on_the_date() {
    let mut p = blank();
    p.original_date = s("2024-03-01");
    assert_eq!(
        locate_edit_target(&p, &calendar()),
        Err("No se encontró ningún evento con fecha original 2024-03-01. Por favor, verifica la fecha o menciona el título del evento.".to_string())
    );
    p.event_id = s("x_y_z");
    assert_eq!(
        locate_edit_target(&p, &calendar()),
        Ok(EditTarget::FetchForDate {
            clean_id: "x_y".to_string(),
            event_id: "x_y_z".to_string(),
            date: "2024-03-01".to_string(),
        })
    );
}

#[test]
fn edit_found_by_id() {
    let mut p = blank();
    assert_eq!(locate_edit_target(&p, &calendar()), Err(NEED_ID_OR_DATE_MESSAGE.to_string()));
    p.event_id = s("c1");
    assert_eq!(locate_edit_target(&p, &calendar()), Ok(EditTarget::ListedById(2)));
    p.event_id = s("zz");
    assert_eq!(locate_edit_target(&p, &calendar()), Ok(EditTarget::FetchById("zz".to_string())));
}

#[test]
fn fetched_event_must_be_on_the_date() {
    let ev = event("c1", "Cine", "2024-02-21T20:00:00-03:00", "2024-02-21T22:00:00-03:00", false);
    assert_eq!(check_fetched_date(&ev, "c1", "2024-02-21"), Ok(()));
    assert_eq!(
        check_fetched_date(&ev, "c1", "2024-02-22"),
        Err("⚠️ El evento con ID c1 tiene fecha 2024-02-21, pero se buscaba un evento con fecha 2024-02-22. Por favor, verifica la fecha original mencionada.".to_string())
    );
    assert_eq!(unlisted_event_message("c9", "404"), "No se encontró el evento con ID c9: 404");
}

#[test]
fn date_phrase_without_original_date_is_refused() {
    let mut p = blank();
    p.start_date = s("2024-02-24");
    assert_eq!(check_date_phrase("Mover el EVENTO DEL martes", &p), Err(DATE_PHRASE_MESSAGE.to_string()));
    assert_eq!(check_date_phrase("mover la cita", &p), Ok(()));
    p.original_date = s("2024-02-20");
    assert_eq!(check_date_phrase("mover el evento del martes", &p), Ok(()));
}

#[test]
fn identified_event_must_match() {
    let ev = event("c1", "Cine", "2024-02-21T20:00:00-03:00", "2024-02-21T22:00:00-03:00", false);
    let mut p = blank();
    p.original_date = s("2024-02-20");
    assert_eq!(
        validate_edit_target(&p, &ev),
        Err("⚠️ El evento identificado ('Cine') tiene fecha 2024-02-21, pero mencionaste que el evento original tenía fecha 2024-02-20. Por favor, sé más específico mencionando el título del evento o verifica que la fecha sea correcta.".to_string())
    );
    p.original_date = s("2024-02-21");
    p.title = "Otro".to_string();
    assert_eq!(validate_edit_target(&p, &ev), Ok(()));
    p.original_date = None;
    assert_eq!(
        validate_edit_target(&p, &ev),
        Err("⚠️ El evento identificado tiene título 'Cine', pero mencionaste 'Otro'. Por favor, verifica que sea el evento correcto o menciona el título exacto del evento que quieres editar.".to_string())
    );
    p.title = String::new();
    assert_eq!(validate_edit_target(&p, &ev), Ok(()));
}

#[test]
fn moving_an_all_day_event_keeps_its_length() {
    let cur = event("d1", "Dentista", "2024-02-20", "2024-02-22", true);
    let mut p = blank();
    p.title = "Otro título".to_string();
    p.start_date = s("2024-02-24");
    p.original_date = s("2024-02-20");
    p.description = s("nueva");
    let req = plan_update(&p, &cur, "mover el evento del 20-02-2024 al 24-02-2024", date(2024, 1, 1)).unwrap();
    assert_eq!(req.start, "2024-02-24");
    assert_eq!(req.end, "2024-02-25");
    assert!(req.is_all_day);
    assert_eq!(req.title, "Dentista");
    assert_eq!(req.description, s("nueva"));
    assert_eq!(req.location, None);
    assert_eq!(req.attendees, Some(vec!["ana@x.com".to_string()]));
}

#[test]
fn moving_a_timed_event_keeps_its_times() {
    let cur = event("r1", "Reunión", "2024-02-20T10:00:00-03:00", "2024-02-20T11:30:00-03:00", false);
    let mut p = blank();
    p.start_date = s("2024-02-24");
    p.is_all_day = true;
    p.attendees = Some(vec!["otro@x.com".to_string()]);
    let req = plan_update(&p, &cur, "Muévelo al 24 con los mismos horarios y mismos participantes", date(2024, 1, 1)).unwrap();
    assert_eq!(req.start, "2024-02-24T13:00:00+00:00");
    assert_eq!(req.end, "2024-02-24T14:30:00+00:00");
    assert!(!req.is_all_day);
    assert_eq!(req.title, "Reunión");
    assert_eq!(req.attendees, Some(vec!["ana@x.com".to_string()]));
    assert_eq!(req.description, s("desc"));
}

#[test]
fn new_start_time_without_end_keeps_length_on_the_old_end_day() {
    let cur = event("r1", "Reunión", "2024-02-20T10:00:00-03:00", "2024-02-20T11:30:00-03:00", false);
    let mut p = blank();
    p.start_date = s("2024-02-24");
    p.start_time = s("15:00");
    p.title = "Reunión".to_string();
    p.attendees = Some(vec![]);
    let req = plan_update(&p, &cur, "a las 15", date(2024, 1, 1)).unwrap();
    assert_eq!(req.start, "2024-02-24T18:00:00+00:00");
    assert_eq!(req.end, "2024-02-20T19:30:00+00:00");
    assert!(!req.is_all_day);
    assert_eq!(req.attendees, Some(vec![]));
}

#[test]
fn unreadable_times_are_refused() {
    let cur = event("r1", "Reunión", "2024-02-20T10:00:00-03:00", "2024-02-20T11:30:00-03:00", false);
    let mut p = blank();
    p.start_time = s("25:99");
    assert_eq!(
        plan_update(&p, &cur, "a las 25", date(2024, 1, 1)),
        Err(PlanError::Refused("Error al parsear fecha/hora de inicio: input is out of range".to_string()))
    );
}

#[test]
fn title_changes_when_asked() {
    let cur = event("d1", "Dentista", "2024-02-20", "2024-02-21", true);
    let mut p = blank();
    p.title = "Fiesta".to_string();
    p.original_date = s("2024-02-20");
    let req = plan_update(&p, &cur, "Cambiar el título a Fiesta", date(2024, 1, 1)).unwrap();
    assert_eq!(req.title, "Fiesta");
    assert_eq!(req.start, "2024-02-20");
    assert_eq!(req.end, "2024-02-20");
}

#[test]
fn past_creations_are_refused() {
    let mut p = blank();
    p.start_date = s("2024-01-01");
    assert_eq!(
        plan_create(&p, date(2024, 5, 10)),
        Err("⚠️ La fecha del evento (2024-01-01) es anterior a la fecha actual (2024-05-10). Por favor, verifica la fecha o confirma si realmente quieres crear un evento en el pasado.".to_string())
    );
}

#[test]
fn all_day_creation_defaults_to_today() {
    let mut p = blank();
    p.title = "Feriado".to_string();
    p.is_all_day = true;
    let req = plan_create(&p, date(2024, 5, 10)).unwrap();
    assert_eq!(req.start, "2024-05-10");
    assert_eq!(req.end, "2024-05-10");
    assert!(req.is_all_day);
    assert_eq!(req.title, "Feriado");
}

#[test]
fn timed_creation_defaults_to_nine_to_ten_local() {
    let mut p = blank();
    p.start_date = s("2024-06-01");
    p.attendees = Some(vec!["a@b.c".to_string()]);
    let req = plan_create(&p, date(2024, 5, 10)).unwrap();
    assert_eq!(req.start, "2024-06-01T12:00:00+00:00");
    assert_eq!(req.end, "2024-06-01T13:00:00+00:00");
    assert_eq!(req.attendees, Some(vec!["a@b.c".to_string()]));
    p.end_time = s("xx");
    assert_eq!(
        plan_create(&p, date(2024, 5, 10)),
        Err("Error al parsear fecha/hora de fin: input contains invalid characters".to_string())
    );
}

#[test]
fn unreadable_bounds_count_as_one_hour() {
    let cur = event("r1", "Reunión", "2024-02-20T10:00:00-03:00", "pronto", false);
    let mut p = blank();
    p.start_date = s("2024-02-24");
    let req = plan_update(&p, &cur, "muévelo", date(2024, 1, 1)).unwrap();
    assert_eq!(req.start, "2024-02-24T13:00:00+00:00");
    assert_eq!(req.end, "2024-02-24T14:00:00+00:00");
}

#[test]
fn edit_searches_the_original_date() {
    let mut p = blank();
    assert_eq!(edit_search_date(&p), None);
    p.original_date = s("2024-02-20");
    assert_eq!(edit_search_date(&p), Some(date(2024, 2, 20)));
    p.original_date = s("20/02/2024");
    assert_eq!(edit_search_date(&p), None);
}

#[test]
fn kept_times_keep_an_all_day_event_all_day() {
    let cur = event("d1", "Dentista", "2024-02-20", "2024-02-21", true);
    let mut p = blank();
    p.start_date = s("2024-02-27");
    p.start_time = s("10:00");
    let req = plan_update(&p, &cur, "pásalo al 27 con el mismo horario", date(2024, 1, 1)).unwrap();
    assert!(req.is_all_day);
    assert_eq!(req.start, "2024-02-27");
    assert_eq!(req.end, "2024-02-27");
}

#[test]
fn one_day_event_moved_stays_one_day() {
    let cur = event("d1", "Dentista", "2024-02-20", "2024-02-21", true);
    let mut p = blank();
    p.start_date = s("2026-02-24");
    let req = plan_update(&p, &cur, "moviéndolo a 24-02-2026", date(2024, 1, 1)).unwrap();
    assert!(req.is_all_day);
    assert_eq!(req.start, "2026-02-24");
    assert_eq!(req.end, "2026-02-24");
    let sent = ofimatia::calendar::build_event_payload(&req, ofimatia::calendar::PayloadKind::Update).unwrap();
    assert_eq!(sent.end, ofimatia::calendar::EventTime::Date("2026-02-25".to_string()));
}

#[test]
fn all_day_event_with_unreadable_bounds_moves_as_one_day() {
    let cur = event("d1", "Dentista", "2024-02-20", "luego", true);
    let mut p = blank();
    p.start_date = s("2024-03-05");
    let req = plan_update(&p, &cur, "muévelo", date(2024, 1, 1)).unwrap();
    assert_eq!(req.start, "2024-03-05");
    assert_eq!(req.end, "2024-03-05");
}

#[test]
fn deletion_is_answered_without_an_event() {
    assert_eq!(deletion_answer(Ok(())), Err(DELETED_MESSAGE.to_string()));
    assert_eq!(deletion_answer(Err("403".to_string())), Err("403".to_string()));
}

#[test]
fn series_fetch_falls_back_to_the_raw_id() {
    let ev = event("a_b", "x", "2024-01-01", "2024-01-02", true);
    assert_eq!(after_series_fetch(Ok(ev.clone()), &"a_b_c".to_string()), SeriesFetch::Found(ev));
    assert_eq!(
        after_series_fetch(Err("404".to_string()), &"a_b_c".to_string()),
        SeriesFetch::FetchRaw("a_b_c".to_string())
    );
}
