use vstd::prelude::*;

use crate::models::{House, HouseKind, HouseView, HouseWithKind, KindView, NewHouse};
use crate::repository::{
    has_kind, joined_rows, spec_requires_floor, HouseRepository, StoreView,
};
use crate::text::spec_parse_nonneg;

verus! {

/// The user-facing error taxonomy: one variant per rejected field, one for
/// an unknown kind, one for any store failure.
#[derive(Clone, Copy, PartialEq, Eq, Structural, Debug)]
pub enum ServiceError {
    InvalidId,
    InvalidStreetNumber,
    InvalidSurface,
    InvalidBathrooms,
    InvalidRooms,
    InvalidKind,
    PersistenceError,
}

/// The Spanish status-line message for each error.
pub open spec fn spec_message(e: ServiceError) -> Seq<char> {
    match e {
        ServiceError::InvalidId => "Error convritiendo el id"@,
        ServiceError::InvalidStreetNumber => "Error convritiendo el número de la calle"@,
        ServiceError::InvalidSurface => "Error convritiendo la superficie"@,
        ServiceError::InvalidBathrooms => "Error convritiendo los baños"@,
        ServiceError::InvalidRooms => "Error convritiendo las habitaciones"@,
        ServiceError::InvalidKind => "Error convirtiendo el tipo de casa"@,
        ServiceError::PersistenceError => "Error guardando en la DB"@,
    }
}

impl ServiceError {
    /// The short Spanish message shown in the status line.
    pub fn message(&self) -> (r: String)
        ensures
            r@ == spec_message(*self),
    {
        match self {
            ServiceError::InvalidId => String::from_str("Error convritiendo el id"),
            ServiceError::InvalidStreetNumber => String::from_str(
                "Error convritiendo el número de la calle",
            ),
            ServiceError::InvalidSurface => String::from_str("Error convritiendo la superficie"),
            ServiceError::InvalidBathrooms => String::from_str("Error convritiendo los baños"),
            ServiceError::InvalidRooms => String::from_str("Error convritiendo las habitaciones"),
            ServiceError::InvalidKind => String::from_str("Error convirtiendo el tipo de casa"),
            ServiceError::PersistenceError => String::from_str("Error guardando en la DB"),
        }
    }
}

/// The dwelling that validation builds from the form fields: parsed numeric
/// values, text taken verbatim, and the floor erased whenever the kind does
/// not call for one.
pub open spec fn normalized_house(
    kinds: Seq<KindView>,
    id: int,
    street: Seq<char>,
    street_number: int,
    street_floor: Seq<char>,
    postal_code: Seq<char>,
    surface_square_meters: int,
    bathrooms: int,
    rooms: int,
    kind_id: int,
) -> HouseView {
    HouseView {
        id: id,
        street: street,
        street_number: street_number,
        street_floor: if spec_requires_floor(kinds, kind_id) {
            street_floor
        } else {
            Seq::empty()
        },
        postal_code: postal_code,
        surface_square_meters: surface_square_meters,
        bathrooms: bathrooms,
        rooms: rooms,
        kind_id: kind_id,
    }
}

/// A successfully parsed id: a positive integer.
pub open spec fn id_parses(s: Seq<char>) -> bool {
    spec_parse_nonneg(s) is Some && spec_parse_nonneg(s).unwrap() >= 1
}

/// The domain façade: validates the form fields, normalizes them and drives
/// the store. Stateless apart from owning its store.
pub struct HouseService {
    pub repository: HouseRepository,
}

impl View for HouseService {
    type V = StoreView;

    open spec fn view(&self) -> StoreView {
        self.repository@
    }
}

impl HouseService {
    pub open spec fn wf(&self) -> bool {
        self.repository.wf()
    }

    pub fn new(house_repository: HouseRepository) -> (r: Self)
        ensures
            r.repository == house_repository,
    {
        HouseService { repository: house_repository }
    }

    /// Validates the form fields and inserts a new dwelling.
    ///
    /// Validation is short-circuit, in field order: street number, surface,
    /// bathrooms, rooms, then the kind. On success exactly one row is added,
    /// normalized and carrying the next id; on any failure the store is
    /// untouched and the error names the first failing field.
    pub fn create_house(
        &mut self,
        street: &str,
        street_number: &str,
        street_floor: &str,
        postal_code: &str,
        surface_square_meters: &str,
        bathrooms: &str,
        rooms: &str,
        kind_id: i32,
    ) -> (r: Result<usize, ServiceError>)
        requires
            old(self).wf(),
        ensures
            final(self).wf(),
            final(self)@.kinds == old(self)@.kinds,
            match r {
                Ok(n) => {
                    &&& n == 1
                    &&& spec_parse_nonneg(street_number@) is Some
                    &&& spec_parse_nonneg(surface_square_meters@) is Some
                    &&& spec_parse_nonneg(bathrooms@) is Some
                    &&& spec_parse_nonneg(rooms@) is Some
                    &&& has_kind(old(self)@.kinds, kind_id as int)
                    &&& old(self)@.next_id < i32::MAX as int
                    &&& final(self)@.houses == old(self)@.houses.push(
                        normalized_house(
                            old(self)@.kinds,
                            old(self)@.next_id,
                            street@,
                            spec_parse_nonneg(street_number@).unwrap(),
                            street_floor@,
                            postal_code@,
                            spec_parse_nonneg(surface_square_meters@).unwrap(),
                            spec_parse_nonneg(bathrooms@).unwrap(),
                            spec_parse_nonneg(rooms@).unwrap(),
                            kind_id as int,
                        ),
                    )
                    &&& final(self)@.next_id == old(self)@.next_id + 1
                },
                Err(e) => {
                    &&& final(self)@ == old(self)@
                    &&& (e == ServiceError::InvalidStreetNumber <==> spec_parse_nonneg(
                        street_number@,
                    ) is None)
                    &&& (e == ServiceError::InvalidSurface <==> spec_parse_nonneg(street_number@)
                        is Some && spec_parse_nonneg(surface_square_meters@) is None)
                    &&& (e == ServiceError::InvalidBathrooms <==> spec_parse_nonneg(street_number@)
                        is Some && spec_parse_nonneg(surface_square_meters@) is Some
                        && spec_parse_nonneg(bathrooms@) is None)
                    &&& (e == ServiceError::InvalidRooms <==> spec_parse_nonneg(street_number@)
                        is Some && spec_parse_nonneg(surface_square_meters@) is Some
                        && spec_parse_nonneg(bathrooms@) is Some && spec_parse_nonneg(rooms@)
                        is None)
                    &&& (e == ServiceError::InvalidKind <==> spec_parse_nonneg(street_number@)
                        is Some && spec_parse_nonneg(surface_square_meters@) is Some
                        && spec_parse_nonneg(bathrooms@) is Some && spec_parse_nonneg(rooms@)
                        is Some && !has_kind(old(self)@.kinds, kind_id as int))
                    &&& (e == ServiceError::PersistenceError <==> spec_parse_nonneg(street_number@)
                        is Some && spec_parse_nonneg(surface_square_meters@) is Some
                        && spec_parse_nonneg(bathrooms@) is Some && spec_parse_nonneg(rooms@)
                        is Some && has_kind(old(self)@.kinds, kind_id as int) && old(
                        self,
                    )@.next_id == i32::MAX as int)
                    &&& e != ServiceError::InvalidId
                },
            },
    {
        let street_number_v = match crate::text::parse_nonneg_i32(street_number) {
            Some(v) => v,
            None => {
                return Err(ServiceError::InvalidStreetNumber);
            },
        };
        let surface_v = match crate::text::parse_nonneg_i32(surface_square_meters) {
            Some(v) => v,
            None => {
                return Err(ServiceError::InvalidSurface);
            },
        };
        let bathrooms_v = match crate::text::parse_nonneg_i32(bathrooms) {
            Some(v) => v,
            None => {
                return Err(ServiceError::InvalidBathrooms);
            },
        };
        let rooms_v = match crate::text::parse_nonneg_i32(rooms) {
            Some(v) => v,
            None => {
                return Err(ServiceError::InvalidRooms);
            },
        };
        let floor: &str = if self.repository.requires_floor(kind_id) {
            street_floor
        } else {
            ""
        };
        if !self.repository.kind_exists(kind_id) {
            return Err(ServiceError::InvalidKind);
        }
        let new_house = NewHouse {
            street: street.to_owned(),
            street_number: street_number_v,
            street_floor: floor.to_owned(),
            postal_code: postal_code.to_owned(),
            surface_square_meters: surface_v,
            bathrooms: bathrooms_v,
            rooms: rooms_v,
            kind_id: kind_id,
        };
        let res = self.repository.create(&new_house);
        match res {
            Ok(n) => {
                proof {
                    reveal_strlit("");
                    assert(""@ =~= Seq::<char>::empty());
                    assert(new_house@.with_id(old(self)@.next_id) =~= normalized_house(
                        old(self)@.kinds,
                        old(self)@.next_id,
                        street@,
                        spec_parse_nonneg(street_number@).unwrap(),
                        street_floor@,
                        postal_code@,
                        spec_parse_nonneg(surface_square_meters@).unwrap(),
                        spec_parse_nonneg(bathrooms@).unwrap(),
                        spec_parse_nonneg(rooms@).unwrap(),
                        kind_id as int,
                    ));
                }
                Ok(n)
            },
            Err(_) => Err(ServiceError::PersistenceError),
        }
    }

    /// Every dwelling joined with its kind, ordered by id.
    pub fn get_houses(&mut self) -> (r: Result<Vec<HouseWithKind>, ServiceError>)
        requires
            old(self).wf(),
        ensures
            *final(self) == *old(self),
            r is Ok,
            r.unwrap()@.map_values(|h: HouseWithKind| h@) == joined_rows(old(self)@),
    {
        match self.repository.find_all() {
            Ok(v) => Ok(v),
            Err(_) => Err(ServiceError::PersistenceError),
        }
    }

    /// Every seeded kind, ordered by id.
    pub fn get_houses_kind(&mut self) -> (r: Result<Vec<HouseKind>, ServiceError>)
        requires
            old(self).wf(),
        ensures
            *final(self) == *old(self),
            r is Ok,
            r.unwrap()@.map_values(|k: HouseKind| k@) == old(self)@.kinds,
    {
        match self.repository.find_all_kinds() {
            Ok(v) => Ok(v),
            Err(_) => Err(ServiceError::PersistenceError),
        }
    }

    /// Validates the form fields together with the id and updates the row
    /// carrying that id.
    ///
    /// Validation is short-circuit, in field order: id, street number,
    /// surface, bathrooms, rooms, then the kind. On success the row with the
    /// parsed id — if any — is replaced by the normalized dwelling and the
    /// count of affected rows (one or zero) is returned; on any failure the
    /// store is untouched.
    pub fn update_house(
        &mut self,
        id: &str,
        street: &str,
        street_number: &str,
        street_floor: &str,
        postal_code: &str,
        surface_square_meters: &str,
        bathrooms: &str,
        rooms: &str,
        kind_id: i32,
    ) -> (r: Result<usize, ServiceError>)
        requires
            old(self).wf(),
        ensures
            final(self).wf(),
            final(self)@.kinds == old(self)@.kinds,
            final(self)@.next_id == old(self)@.next_id,
            match r {
                Ok(n) => {
                    &&& id_parses(id@)
                    &&& spec_parse_nonneg(street_number@) is Some
                    &&& spec_parse_nonneg(surface_square_meters@) is Some
                    &&& spec_parse_nonneg(bathrooms@) is Some
                    &&& spec_parse_nonneg(rooms@) is Some
                    &&& has_kind(old(self)@.kinds, kind_id as int)
                    &&& {
                        let idv = spec_parse_nonneg(id@).unwrap();
                        let hv = normalized_house(
                            old(self)@.kinds,
                            idv,
                            street@,
                            spec_parse_nonneg(street_number@).unwrap(),
                            street_floor@,
                            postal_code@,
                            spec_parse_nonneg(surface_square_meters@).unwrap(),
                            spec_parse_nonneg(bathrooms@).unwrap(),
                            spec_parse_nonneg(rooms@).unwrap(),
                            kind_id as int,
                        );
                        if exists|i: int|
                            0 <= i < old(self)@.houses.len() && (#[trigger] old(
                                self,
                            )@.houses[i]).id == idv {
                            let i = choose|i: int|
                                0 <= i < old(self)@.houses.len() && (#[trigger] old(
                                    self,
                                )@.houses[i]).id == idv;
                            n == 1 && final(self)@.houses == old(self)@.houses.update(i, hv)
                        } else {
                            n == 0 && final(self)@ == old(self)@
                        }
                    }
                },
                Err(e) => {
                    &&& final(self)@ == old(self)@
                    &&& (e == ServiceError::InvalidId <==> !id_parses(id@))
                    &&& (e == ServiceError::InvalidStreetNumber <==> id_parses(id@)
                        && spec_parse_nonneg(street_number@) is None)
                    &&& (e == ServiceError::InvalidSurface <==> id_parses(id@)
                        && spec_parse_nonneg(street_number@) is Some && spec_parse_nonneg(
                        surface_square_meters@,
                    ) is None)
                    &&& (e == ServiceError::InvalidBathrooms <==> id_parses(id@)
                        && spec_parse_nonneg(street_number@) is Some && spec_parse_nonneg(
                        surface_square_meters@,
                    ) is Some && spec_parse_nonneg(bathrooms@) is None)
                    &&& (e == ServiceError::InvalidRooms <==> id_parses(id@) && spec_parse_nonneg(
                        street_number@,
                    ) is Some && spec_parse_nonneg(surface_square_meters@) is Some
                        && spec_parse_nonneg(bathrooms@) is Some && spec_parse_nonneg(rooms@)
                        is None)
                    &&& (e == ServiceError::InvalidKind <==> id_parses(id@) && spec_parse_nonneg(
                        street_number@,
                    ) is Some && spec_parse_nonneg(surface_square_meters@) is Some
                        && spec_parse_nonneg(bathrooms@) is Some && spec_parse_nonneg(rooms@)
                        is Some && !has_kind(old(self)@.kinds, kind_id as int))
                    &&& e != ServiceError::PersistenceError
                },
            },
    {
        let id_v = match crate::text::parse_pos_i32(id) {
            Some(v) => v,
            None => {
                return Err(ServiceError::InvalidId);
            },
        };
        let street_number_v = match crate::text::parse_nonneg_i32(street_number) {
            Some(v) => v,
            None => {
                return Err(ServiceError::InvalidStreetNumber);
            },
        };
        let surface_v = match crate::text::parse_nonneg_i32(surface_square_meters) {
            Some(v) => v,
            None => {
                return Err(ServiceError::InvalidSurface);
            },
        };
        let bathrooms_v = match crate::text::parse_nonneg_i32(bathrooms) {
            Some(v) => v,
            None => {
                return Err(ServiceError::InvalidBathrooms);
            },
        };
        let rooms_v = match crate::text::parse_nonneg_i32(rooms) {
            Some(v) => v,
            None => {
                return Err(ServiceError::InvalidRooms);
            },
        };
        let floor: &str = if self.repository.requires_floor(kind_id) {
            street_floor
        } else {
            ""
        };
        if !self.repository.kind_exists(kind_id) {
            return Err(ServiceError::InvalidKind);
        }
        let house = House {
            id: id_v,
            street: street.to_owned(),
            street_number: street_number_v,
            street_floor: floor.to_owned(),
            postal_code: postal_code.to_owned(),
            surface_square_meters: surface_v,
            bathrooms: bathrooms_v,
            rooms: rooms_v,
            kind_id: kind_id,
        };
        proof {
            reveal_strlit("");
            assert(""@ =~= Seq::<char>::empty());
            assert(house@ =~= normalized_house(
                old(self)@.kinds,
                spec_parse_nonneg(id@).unwrap(),
                street@,
                spec_parse_nonneg(street_number@).unwrap(),
                street_floor@,
                postal_code@,
                spec_parse_nonneg(surface_square_meters@).unwrap(),
                spec_parse_nonneg(bathrooms@).unwrap(),
                spec_parse_nonneg(rooms@).unwrap(),
                kind_id as int,
            ));
        }
        match self.repository.update(house) {
            Ok(n) => Ok(n),
            Err(_) => Err(ServiceError::PersistenceError),
        }
    }

    /// Deletes the row with the given id; a missing id affects zero rows and
    /// is no error.
    pub fn delete_house(&mut self, id: i32) -> (r: Result<usize, ServiceError>)
        requires
            old(self).wf(),
        ensures
            final(self).wf(),
            final(self)@.kinds == old(self)@.kinds,
            final(self)@.next_id == old(self)@.next_id,
            r is Ok,
            if exists|i: int|
                0 <= i < old(self)@.houses.len() && (#[trigger] old(self)@.houses[i]).id
                    == id as int {
                let i = choose|i: int|
                    0 <= i < old(self)@.houses.len() && (#[trigger] old(self)@.houses[i]).id
                        == id as int;
                r.unwrap() == 1 && final(self)@.houses == old(self)@.houses.remove(i)
            } else {
                r.unwrap() == 0 && final(self)@ == old(self)@
            },
    {
        match self.repository.delete(id) {
            Ok(n) => Ok(n),
            Err(_) => Err(ServiceError::PersistenceError),
        }
    }
}

} // verus!
