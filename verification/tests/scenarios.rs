use houses::models::{House, HouseKind};
use houses::repository::HouseRepository;
use houses::service::{HouseService, ServiceError};

fn seed_kinds() -> Vec<HouseKind> {
    vec![
        HouseKind { id: 1, kind: "casa".to_string() },
        HouseKind { id: 2, kind: "departamento".to_string() },
        HouseKind { id: 3, kind: "PH".to_string() },
    ]
}

fn seeded_service() -> HouseService {
    HouseService::new(HouseRepository::new(seed_kinds(), Vec::new()))
}

fn house(id: i32, kind_id: i32) -> House {
    House {
        id,
        street: "Calle".to_string(),
        street_number: 1,
        street_floor: "".to_string(),
        postal_code: "1000".to_string(),
        surface_square_meters: 50,
        bathrooms: 1,
        rooms: 1,
        kind_id,
    }
}

#[test]
fn create_casa_renders_expected_line() {
    let mut service = seeded_service();
    let count = service
        .create_house("Av. Siempre Viva", "742", "", "1405", "120", "2", "3", 1)
        .unwrap();
    assert_eq!(count, 1);
    let rows = service.get_houses().unwrap();
    assert_eq!(rows.len(), 1);
    assert_eq!(
        rows[0].to_string(),
        "#1: Av. Siempre Viva 742 CP: 1405. Con 2 baño/s ,3 habitación/es. Tipo \"casa\" (120m2)"
    );
}

#[test]
fn create_departamento_renders_floor_with_lone_paren() {
    let mut service = seeded_service();
    let count = service
        .create_house("Calle Falsa", "123", "5", "1000", "60", "1", "2", 2)
        .unwrap();
    assert_eq!(count, 1);
    let rows = service.get_houses().unwrap();
    assert_eq!(rows.len(), 1);
    assert_eq!(
        rows[0].to_string(),
        "#1: Calle Falsa 123 (piso 5 CP: 1000. Con 1 baño/s ,2 habitación/es. Tipo \"departamento\" (60m2)"
    );
}

#[test]
fn invalid_street_number_leaves_store_untouched() {
    let mut service = seeded_service();
    let res = service.create_house("X", "abc", "", "1405", "120", "2", "3", 1);
    assert_eq!(res, Err(ServiceError::InvalidStreetNumber));
    assert_eq!(service.get_houses().unwrap().len(), 0);
}

#[test]
fn update_replaces_fields_of_sole_row() {
    let mut service = seeded_service();
    service
        .create_house("Av. Siempre Viva", "742", "", "1405", "120", "2", "3", 1)
        .unwrap();
    let count = service
        .update_house("1", "Nueva", "10", "", "1405", "130", "2", "3", 1)
        .unwrap();
    assert_eq!(count, 1);
    let rows = service.get_houses().unwrap();
    assert_eq!(rows.len(), 1);
    assert_eq!(rows[0].street, "Nueva");
    assert_eq!(rows[0].street_number, 10);
    assert_eq!(rows[0].surface_square_meters, 130);
}

#[test]
fn delete_then_delete_again_is_zero_and_no_error() {
    let mut service = seeded_service();
    service
        .create_house("Av. Siempre Viva", "742", "", "1405", "120", "2", "3", 1)
        .unwrap();
    assert_eq!(service.delete_house(1), Ok(1));
    assert_eq!(service.get_houses().unwrap().len(), 0);
    assert_eq!(service.delete_house(1), Ok(0));
}

#[test]
fn delete_removes_row_from_listing() {
    let mut service = seeded_service();
    service.create_house("A", "1", "", "1", "1", "1", "1", 1).unwrap();
    service.create_house("B", "2", "", "2", "2", "2", "2", 1).unwrap();
    assert_eq!(service.delete_house(1), Ok(1));
    let rows = service.get_houses().unwrap();
    assert_eq!(rows.len(), 1);
    assert_eq!(rows[0].id, 2);
}

#[test]
fn filter_by_id_substring() {
    let repo = HouseRepository::new(
        seed_kinds(),
        vec![house(1, 1), house(10, 1), house(12, 1)],
    );
    let mut service = HouseService::new(repo);
    let rows = service.get_houses().unwrap();

    let by_one = houses::presenter::filter_houses(&rows, "1");
    let ids: Vec<i32> = by_one.iter().map(|h| h.id).collect();
    assert_eq!(ids, vec![1, 10, 12]);

    let by_twelve = houses::presenter::filter_houses(&rows, "12");
    let ids: Vec<i32> = by_twelve.iter().map(|h| h.id).collect();
    assert_eq!(ids, vec![12]);

    let by_blank = houses::presenter::filter_houses(&rows, "  ");
    assert_eq!(by_blank.len(), 3);

    let by_zero = houses::presenter::filter_houses(&rows, "0");
    let ids: Vec<i32> = by_zero.iter().map(|h| h.id).collect();
    assert_eq!(ids, vec![10]);
}

#[test]
fn list_keeps_id_order_and_joins_kind_names() {
    let repo = HouseRepository::new(
        seed_kinds(),
        vec![house(3, 1), house(7, 2), house(9, 3)],
    );
    let mut service = HouseService::new(repo);
    let rows = service.get_houses().unwrap();
    let ids: Vec<i32> = rows.iter().map(|h| h.id).collect();
    assert_eq!(ids, vec![3, 7, 9]);
    let kinds: Vec<&str> = rows.iter().map(|h| h.kind.as_str()).collect();
    assert_eq!(kinds, vec!["casa", "departamento", "PH"]);
}

#[test]
fn kinds_come_back_ordered() {
    let mut service = seeded_service();
    let kinds = service.get_houses_kind().unwrap();
    let names: Vec<&str> = kinds.iter().map(|k| k.kind.as_str()).collect();
    assert_eq!(names, vec!["casa", "departamento", "PH"]);
    let ids: Vec<i32> = kinds.iter().map(|k| k.id).collect();
    assert_eq!(ids, vec![1, 2, 3]);
}

#[test]
fn every_listed_row_resolves_to_a_seeded_kind() {
    let repo = HouseRepository::new(seed_kinds(), vec![house(1, 1), house(2, 2), house(5, 3)]);
    let mut service = HouseService::new(repo);
    let kinds = service.get_houses_kind().unwrap();
    for row in service.get_houses().unwrap() {
        let kind = kinds.iter().find(|k| k.id == row.kind_id).expect("kind must resolve");
        assert_eq!(kind.kind, row.kind);
    }
}

#[test]
fn created_ids_ascend_and_continue_after_seeded_rows() {
    let repo = HouseRepository::new(seed_kinds(), vec![house(1, 1), house(10, 1)]);
    let mut service = HouseService::new(repo);
    service.create_house("C", "3", "", "3", "3", "3", "3", 1).unwrap();
    let rows = service.get_houses().unwrap();
    let ids: Vec<i32> = rows.iter().map(|h| h.id).collect();
    assert_eq!(ids, vec![1, 10, 11]);
}
