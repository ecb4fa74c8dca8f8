use houses::models::HouseKind;
use houses::presenter::{resolve_selection, Intent, Presenter, ViewInput};
use houses::repository::HouseRepository;
use houses::service::HouseService;

fn seeded_presenter() -> Presenter {
    let kinds = vec![
        HouseKind { id: 1, kind: "casa".to_string() },
        HouseKind { id: 2, kind: "departamento".to_string() },
        HouseKind { id: 3, kind: "PH".to_string() },
    ];
    Presenter::new(HouseService::new(HouseRepository::new(kinds, Vec::new())))
}

fn ui(filter: &str, selected: Option<&str>) -> ViewInput {
    ViewInput {
        filter_text: filter.to_string(),
        selected_text: selected.map(|s| s.to_string()),
        id_text: "".to_string(),
        street: "".to_string(),
        street_number: "".to_string(),
        street_floor: "".to_string(),
        postal_code: "".to_string(),
        surface_square_meters: "".to_string(),
        bathrooms: "".to_string(),
        rooms: "".to_string(),
        kind_id: -1,
    }
}

fn form(street: &str, number: &str, floor: &str, cp: &str, surface: &str, bath: &str, rooms: &str, kind_id: i32) -> ViewInput {
    ViewInput {
        filter_text: "".to_string(),
        selected_text: None,
        id_text: "".to_string(),
        street: street.to_string(),
        street_number: number.to_string(),
        street_floor: floor.to_string(),
        postal_code: cp.to_string(),
        surface_square_meters: surface.to_string(),
        bathrooms: bath.to_string(),
        rooms: rooms.to_string(),
        kind_id,
    }
}

#[test]
fn create_intent_clears_form_and_schedules_filter() {
    let mut p = seeded_presenter();
    let fx = p.handle(Intent::Create, &ui("", None));
    assert!(fx.clear_form);
    assert_eq!(fx.status.as_deref(), Some("Complete los campos"));
    assert_eq!(fx.followups, vec![Intent::Filter]);
    assert!(p.save_armed);
}

#[test]
fn filter_intent_reloads_list_and_disarms_save() {
    let mut p = seeded_presenter();
    p.handle(Intent::Save, &form("A", "1", "", "1", "1", "1", "1", 1));
    let mut p2 = p;
    let fx = p2.handle(Intent::Filter, &ui("", None));
    assert!(!p2.save_armed);
    let lines = fx.list.unwrap();
    assert_eq!(lines.len(), 1);
    assert!(lines[0].starts_with("#1: A 1"));
    assert_eq!(fx.followups, vec![Intent::Select]);

    let fx = p2.handle(Intent::Filter, &ui("9", None));
    assert_eq!(fx.list.unwrap().len(), 0);

    let fx = p2.handle(Intent::Filter, &ui("  ", None));
    assert_eq!(fx.list.unwrap().len(), 1);
}

#[test]
fn save_intent_persists_and_schedules_reload() {
    let mut p = seeded_presenter();
    let fx = p.handle(Intent::Save, &form("Av. Siempre Viva", "742", "", "1405", "120", "2", "3", 1));
    assert_eq!(fx.status.as_deref(), Some("Elemento nuevo guardado"));
    assert!(fx.clear_form);
    assert_eq!(fx.followups, vec![Intent::Filter, Intent::Select]);
    assert!(!p.save_armed);
    assert_eq!(p.service.get_houses().unwrap().len(), 1);
}

#[test]
fn save_intent_reports_failure_and_keeps_store() {
    let mut p = seeded_presenter();
    let fx = p.handle(Intent::Save, &form("A", "nope", "", "1", "1", "1", "1", 1));
    assert_eq!(fx.status.as_deref(), Some("Error guardando el nuevo elemento"));
    assert!(!fx.clear_form);
    assert!(fx.followups.is_empty());
    assert!(p.save_armed);
    assert_eq!(p.service.get_houses().unwrap().len(), 0);
}

#[test]
fn save_intent_does_nothing_when_disarmed() {
    let mut p = seeded_presenter();
    p.handle(Intent::Filter, &ui("", None));
    assert!(!p.save_armed);
    let fx = p.handle(Intent::Save, &form("A", "1", "", "1", "1", "1", "1", 1));
    assert!(fx.status.is_none());
    assert_eq!(p.service.get_houses().unwrap().len(), 0);
}

#[test]
fn select_intent_populates_form_from_matching_line() {
    let mut p = seeded_presenter();
    p.handle(Intent::Save, &form("Av. Siempre Viva", "742", "", "1405", "120", "2", "3", 1));
    let line = p.service.get_houses().unwrap()[0].to_string();
    // the comparison is ASCII-case-insensitive
    let fx = p.handle(Intent::Select, &ui("", Some(&line.to_ascii_uppercase())));
    let row = fx.populate.expect("a row should resolve");
    assert_eq!(row.id, 1);
    assert_eq!(row.street, "Av. Siempre Viva");
    assert_eq!(fx.status.as_deref(), Some("Elemento #1 seleccionado"));
    assert!(p.update_armed);
    assert!(p.delete_armed);
}

#[test]
fn select_intent_without_highlight_disarms_edit_buttons() {
    let mut p = seeded_presenter();
    p.update_armed = true;
    p.delete_armed = true;
    let fx = p.handle(Intent::Select, &ui("", None));
    assert!(fx.populate.is_none());
    assert!(!p.update_armed);
    assert!(!p.delete_armed);
    assert!(p.save_armed);
}

#[test]
fn update_intent_rewrites_the_selected_row() {
    let mut p = seeded_presenter();
    p.handle(Intent::Save, &form("Vieja", "1", "", "1405", "120", "2", "3", 1));
    let line = p.service.get_houses().unwrap()[0].to_string();
    let mut input = form("Nueva", "10", "", "1405", "130", "2", "3", 1);
    input.selected_text = Some(line);
    input.id_text = "1".to_string();
    let fx = p.handle(Intent::Update, &input);
    assert_eq!(fx.status.as_deref(), Some("Elemento #1 actualizado"));
    assert!(fx.clear_form);
    assert_eq!(fx.followups, vec![Intent::Filter, Intent::Select]);
    let rows = p.service.get_houses().unwrap();
    assert_eq!(rows[0].street, "Nueva");
    assert_eq!(rows[0].surface_square_meters, 130);
}

#[test]
fn update_intent_with_stale_selection_is_dropped() {
    let mut p = seeded_presenter();
    p.handle(Intent::Save, &form("A", "1", "", "1", "1", "1", "1", 1));
    let mut input = form("B", "2", "", "2", "2", "2", "2", 1);
    input.selected_text = Some("#9: no such line".to_string());
    input.id_text = "1".to_string();
    let fx = p.handle(Intent::Update, &input);
    assert!(fx.status.is_none());
    assert_eq!(p.service.get_houses().unwrap()[0].street, "A");
}

#[test]
fn update_intent_reports_bad_fields() {
    let mut p = seeded_presenter();
    p.handle(Intent::Save, &form("A", "1", "", "1", "1", "1", "1", 1));
    let line = p.service.get_houses().unwrap()[0].to_string();
    let mut input = form("B", "bad", "", "2", "2", "2", "2", 1);
    input.selected_text = Some(line);
    input.id_text = "1".to_string();
    let fx = p.handle(Intent::Update, &input);
    assert_eq!(fx.status.as_deref(), Some("Error actualizando el elemento #1"));
    assert_eq!(p.service.get_houses().unwrap()[0].street, "A");
}

#[test]
fn delete_intent_removes_the_selected_row() {
    let mut p = seeded_presenter();
    p.handle(Intent::Save, &form("A", "1", "", "1", "1", "1", "1", 1));
    let line = p.service.get_houses().unwrap()[0].to_string();
    let mut input = ui("", Some(&line));
    input.id_text = "1".to_string();
    let fx = p.handle(Intent::Delete, &input);
    assert_eq!(fx.status.as_deref(), Some("Elemento #1 eliminado"));
    assert!(fx.clear_form);
    assert_eq!(fx.followups, vec![Intent::Filter, Intent::Select]);
    assert!(!p.save_armed);
    assert_eq!(p.service.get_houses().unwrap().len(), 0);
}

#[test]
fn delete_intent_without_highlight_is_dropped() {
    let mut p = seeded_presenter();
    p.handle(Intent::Save, &form("A", "1", "", "1", "1", "1", "1", 1));
    let fx = p.handle(Intent::Delete, &ui("", None));
    assert!(fx.status.is_none());
    assert_eq!(p.service.get_houses().unwrap().len(), 1);
}

#[test]
fn resolution_picks_the_first_match() {
    let mut p = seeded_presenter();
    p.handle(Intent::Save, &form("A", "1", "", "1", "1", "1", "1", 1));
    p.save_armed = true;
    p.handle(Intent::Save, &form("B", "2", "", "2", "2", "2", "2", 1));
    let rows = p.service.get_houses().unwrap();
    let line = rows[1].to_string();
    assert_eq!(resolve_selection(&rows, &line), Some(1));
    assert_eq!(resolve_selection(&rows, "nothing like this"), None);
    assert_eq!(resolve_selection(&rows, &rows[0].to_string()), Some(0));
}
