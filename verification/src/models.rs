use vstd::prelude::*;

verus! {

/// A dwelling classification, seeded externally and read-only at runtime.
pub struct HouseKind {
    pub id: i32,
    pub kind: String,
}

/// A persisted dwelling row.
pub struct House {
    pub id: i32,
    pub street: String,
    pub street_number: i32,
    pub street_floor: String,
    pub postal_code: String,
    pub surface_square_meters: i32,
    pub bathrooms: i32,
    pub rooms: i32,
    pub kind_id: i32,
}

/// A dwelling about to be inserted; the store assigns the id.
pub struct NewHouse {
    pub street: String,
    pub street_number: i32,
    pub street_floor: String,
    pub postal_code: String,
    pub surface_square_meters: i32,
    pub bathrooms: i32,
    pub rooms: i32,
    pub kind_id: i32,
}

/// Read projection joining a dwelling with its kind's display name.
pub struct HouseWithKind {
    pub id: i32,
    pub street: String,
    pub street_number: i32,
    pub street_floor: String,
    pub postal_code: String,
    pub surface_square_meters: i32,
    pub bathrooms: i32,
    pub rooms: i32,
    pub kind_id: i32,
    pub kind: String,
}

/// Mathematical model of a `HouseKind`.
#[verifier::ext_equal]
pub ghost struct KindView {
    pub id: int,
    pub kind: Seq<char>,
}

/// Mathematical model of a `House` (and, field for field, of a `NewHouse`).
#[verifier::ext_equal]
pub ghost struct HouseView {
    pub id: int,
    pub street: Seq<char>,
    pub street_number: int,
    pub street_floor: Seq<char>,
    pub postal_code: Seq<char>,
    pub surface_square_meters: int,
    pub bathrooms: int,
    pub rooms: int,
    pub kind_id: int,
}

/// Mathematical model of a `HouseWithKind`.
#[verifier::ext_equal]
pub ghost struct HouseWithKindView {
    pub id: int,
    pub street: Seq<char>,
    pub street_number: int,
    pub street_floor: Seq<char>,
    pub postal_code: Seq<char>,
    pub surface_square_meters: int,
    pub bathrooms: int,
    pub rooms: int,
    pub kind_id: int,
    pub kind: Seq<char>,
}

impl View for HouseKind {
    type V = KindView;

    open spec fn view(&self) -> KindView {
        KindView { id: self.id as int, kind: self.kind@ }
    }
}

impl View for House {
    type V = HouseView;

    open spec fn view(&self) -> HouseView {
        HouseView {
            id: self.id as int,
            street: self.street@,
            street_number: self.street_number as int,
            street_floor: self.street_floor@,
            postal_code: self.postal_code@,
            surface_square_meters: self.surface_square_meters as int,
            bathrooms: self.bathrooms as int,
            rooms: self.rooms as int,
            kind_id: self.kind_id as int,
        }
    }
}

impl View for NewHouse {
    type V = HouseView;

    open spec fn view(&self) -> HouseView {
        HouseView {
            id: 0,
            street: self.street@,
            street_number: self.street_number as int,
            street_floor: self.street_floor@,
            postal_code: self.postal_code@,
            surface_square_meters: self.surface_square_meters as int,
            bathrooms: self.bathrooms as int,
            rooms: self.rooms as int,
            kind_id: self.kind_id as int,
        }
    }
}

impl View for HouseWithKind {
    type V = HouseWithKindView;

    open spec fn view(&self) -> HouseWithKindView {
        HouseWithKindView {
            id: self.id as int,
            street: self.street@,
            street_number: self.street_number as int,
            street_floor: self.street_floor@,
            postal_code: self.postal_code@,
            surface_square_meters: self.surface_square_meters as int,
            bathrooms: self.bathrooms as int,
            rooms: self.rooms as int,
            kind_id: self.kind_id as int,
            kind: self.kind@,
        }
    }
}

impl HouseView {
    /// The projection of a stored row together with its kind's name.
    pub open spec fn joined(self, kind: Seq<char>) -> HouseWithKindView {
        HouseWithKindView {
            id: self.id,
            street: self.street,
            street_number: self.street_number,
            street_floor: self.street_floor,
            postal_code: self.postal_code,
            surface_square_meters: self.surface_square_meters,
            bathrooms: self.bathrooms,
            rooms: self.rooms,
            kind_id: self.kind_id,
            kind: kind,
        }
    }

    /// The same row under another id, as the store assigns one on insert.
    pub open spec fn with_id(self, id: int) -> HouseView {
        HouseView {
            id: id,
            street: self.street,
            street_number: self.street_number,
            street_floor: self.street_floor,
            postal_code: self.postal_code,
            surface_square_meters: self.surface_square_meters,
            bathrooms: self.bathrooms,
            rooms: self.rooms,
            kind_id: self.kind_id,
        }
    }

    /// A persisted row carries a positive id and non-negative numeric fields.
    pub open spec fn wf(self) -> bool {
        &&& 1 <= self.id <= i32::MAX
        &&& 0 <= self.street_number <= i32::MAX
        &&& 0 <= self.surface_square_meters <= i32::MAX
        &&& 0 <= self.bathrooms <= i32::MAX
        &&& 0 <= self.rooms <= i32::MAX
    }
}

/// The name of the one kind whose dwellings carry a floor.
pub open spec fn apartment_kind_name() -> Seq<char> {
    "departamento"@
}

/// Whether a kind with the given display name calls for a floor field.
pub open spec fn spec_kind_requires_floor(kind: Seq<char>) -> bool {
    kind == apartment_kind_name()
}

/// Decides whether a kind name is the apartment kind, the only one whose
/// dwellings carry a floor.
pub fn kind_requires_floor(kind: &String) -> (r: bool)
    ensures
        r == spec_kind_requires_floor(kind@),
{
    let apartment: String = String::from_str("departamento");
    kind.eq(&apartment)
}

} // verus!
