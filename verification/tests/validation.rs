use houses::models::HouseKind;
use houses::repository::HouseRepository;
use houses::service::{HouseService, ServiceError};

fn seeded_service() -> HouseService {
    let kinds = vec![
        HouseKind { id: 1, kind: "casa".to_string() },
        HouseKind { id: 2, kind: "departamento".to_string() },
        HouseKind { id: 3, kind: "PH".to_string() },
    ];
    HouseService::new(HouseRepository::new(kinds, Vec::new()))
}

#[test]
fn create_rejects_each_bad_numeric_field_in_order() {
    let mut s = seeded_service();
    assert_eq!(
        s.create_house("A", "x", "", "1", "1", "1", "1", 1),
        Err(ServiceError::InvalidStreetNumber)
    );
    assert_eq!(
        s.create_house("A", "1", "", "1", "x", "1", "1", 1),
        Err(ServiceError::InvalidSurface)
    );
    assert_eq!(
        s.create_house("A", "1", "", "1", "1", "x", "1", 1),
        Err(ServiceError::InvalidBathrooms)
    );
    assert_eq!(
        s.create_house("A", "1", "", "1", "1", "1", "x", 1),
        Err(ServiceError::InvalidRooms)
    );
    // short-circuit: the first failing field names the error
    assert_eq!(
        s.create_house("A", "x", "", "1", "y", "z", "w", 9),
        Err(ServiceError::InvalidStreetNumber)
    );
    assert_eq!(s.get_houses().unwrap().len(), 0);
}

#[test]
fn create_rejects_unknown_kind() {
    let mut s = seeded_service();
    assert_eq!(
        s.create_house("A", "1", "", "1", "1", "1", "1", 9),
        Err(ServiceError::InvalidKind)
    );
    assert_eq!(
        s.create_house("A", "1", "", "1", "1", "1", "1", 0),
        Err(ServiceError::InvalidKind)
    );
    assert_eq!(
        s.create_house("A", "1", "", "1", "1", "1", "1", -1),
        Err(ServiceError::InvalidKind)
    );
}

#[test]
fn create_rejects_negative_and_malformed_numbers() {
    let mut s = seeded_service();
    assert_eq!(
        s.create_house("A", "-5", "", "1", "1", "1", "1", 1),
        Err(ServiceError::InvalidStreetNumber)
    );
    assert_eq!(
        s.create_house("A", "1.5", "", "1", "1", "1", "1", 1),
        Err(ServiceError::InvalidStreetNumber)
    );
    assert_eq!(
        s.create_house("A", " 5", "", "1", "1", "1", "1", 1),
        Err(ServiceError::InvalidStreetNumber)
    );
    assert_eq!(
        s.create_house("A", "", "", "1", "1", "1", "1", 1),
        Err(ServiceError::InvalidStreetNumber)
    );
    assert_eq!(
        s.create_house("A", "99999999999999999999", "", "1", "1", "1", "1", 1),
        Err(ServiceError::InvalidStreetNumber)
    );
    // an explicit plus sign is accepted
    assert_eq!(s.create_house("A", "+5", "", "1", "1", "1", "1", 1), Ok(1));
    let rows = s.get_houses().unwrap();
    assert_eq!(rows[0].street_number, 5);
}

#[test]
fn update_rejects_bad_id_first() {
    let mut s = seeded_service();
    s.create_house("A", "1", "", "1", "1", "1", "1", 1).unwrap();
    assert_eq!(
        s.update_house("abc", "A", "1", "", "1", "1", "1", "1", 1),
        Err(ServiceError::InvalidId)
    );
    assert_eq!(
        s.update_house("0", "A", "1", "", "1", "1", "1", "1", 1),
        Err(ServiceError::InvalidId)
    );
    assert_eq!(
        s.update_house("1", "A", "x", "", "1", "1", "1", "1", 1),
        Err(ServiceError::InvalidStreetNumber)
    );
    assert_eq!(
        s.update_house("1", "A", "1", "", "1", "1", "1", "1", 9),
        Err(ServiceError::InvalidKind)
    );
}

#[test]
fn update_of_missing_id_affects_zero_rows() {
    let mut s = seeded_service();
    s.create_house("A", "1", "", "1", "1", "1", "1", 1).unwrap();
    assert_eq!(s.update_house("7", "B", "2", "", "2", "2", "2", "2", 1), Ok(0));
    let rows = s.get_houses().unwrap();
    assert_eq!(rows[0].street, "A");
}

#[test]
fn floor_is_erased_for_kinds_without_one() {
    let mut s = seeded_service();
    s.create_house("A", "1", "7", "1", "1", "1", "1", 1).unwrap();
    let rows = s.get_houses().unwrap();
    assert_eq!(rows[0].street_floor, "");
}

#[test]
fn floor_is_kept_for_the_apartment_kind() {
    let mut s = seeded_service();
    s.create_house("A", "1", "7", "1", "1", "1", "1", 2).unwrap();
    let rows = s.get_houses().unwrap();
    assert_eq!(rows[0].street_floor, "7");
}

#[test]
fn malformed_floor_with_house_kind_is_not_an_error() {
    let mut s = seeded_service();
    assert_eq!(s.create_house("A", "1", "not a floor", "1", "1", "1", "1", 1), Ok(1));
    let rows = s.get_houses().unwrap();
    assert_eq!(rows[0].street_floor, "");
}

#[test]
fn update_erases_floor_when_kind_changes_away_from_apartment() {
    let mut s = seeded_service();
    s.create_house("A", "1", "5", "1", "1", "1", "1", 2).unwrap();
    assert_eq!(s.update_house("1", "A", "1", "5", "1", "1", "1", "1", 3), Ok(1));
    let rows = s.get_houses().unwrap();
    assert_eq!(rows[0].street_floor, "");
    assert_eq!(rows[0].kind_id, 3);
}

#[test]
fn error_messages_are_the_spanish_status_lines() {
    assert_eq!(ServiceError::InvalidId.message(), "Error convritiendo el id");
    assert_eq!(
        ServiceError::InvalidStreetNumber.message(),
        "Error convritiendo el número de la calle"
    );
    assert_eq!(ServiceError::InvalidSurface.message(), "Error convritiendo la superficie");
    assert_eq!(ServiceError::InvalidBathrooms.message(), "Error convritiendo los baños");
    assert_eq!(ServiceError::InvalidRooms.message(), "Error convritiendo las habitaciones");
    assert_eq!(ServiceError::InvalidKind.message(), "Error convirtiendo el tipo de casa");
    assert_eq!(ServiceError::PersistenceError.message(), "Error guardando en la DB");
}
