use vstd::prelude::*;

use crate::models::{kind_requires_floor, spec_kind_requires_floor, HouseWithKind, HouseWithKindView};
use crate::text::{dec_str, i32_dec_string};

verus! {

/// The one-line rendering of a projected dwelling: id, address — with the
/// floor spliced in (behind a lone `(`) when the kind calls for one and the
/// field is non-empty — and the common tail of postal code, bathroom, room,
/// kind and surface figures.
pub open spec fn render_house(h: HouseWithKindView) -> Seq<char> {
    "#"@ + dec_str(h.id) + ": "@ + h.street + " "@ + dec_str(h.street_number) + (
    if spec_kind_requires_floor(h.kind) && h.street_floor.len() > 0 {
        " (piso "@ + h.street_floor
    } else {
        Seq::<char>::empty()
    }) + " CP: "@ + h.postal_code + ". Con "@ + dec_str(h.bathrooms) + " baño/s ,"@ + dec_str(
        h.rooms,
    ) + " habitación/es. Tipo \""@ + h.kind + "\" ("@ + dec_str(h.surface_square_meters) + "m2)"@
}

impl HouseWithKind {
    /// Renders the row to its one display line.
    pub fn to_string(&self) -> (r: String)
        requires
            self@.id >= 0,
            self@.street_number >= 0,
            self@.surface_square_meters >= 0,
            self@.bathrooms >= 0,
            self@.rooms >= 0,
        ensures
            r@ == render_house(self@),
    {
        let mut s = String::from_str("#");
        let id_s = i32_dec_string(self.id);
        s.append(id_s.as_str());
        s.append(": ");
        s.append(self.street.as_str());
        s.append(" ");
        let num_s = i32_dec_string(self.street_number);
        s.append(num_s.as_str());
        if kind_requires_floor(&self.kind) && !self.street_floor.as_str().is_empty() {
            s.append(" (piso ");
            s.append(self.street_floor.as_str());
        }
        s.append(" CP: ");
        s.append(self.postal_code.as_str());
        s.append(". Con ");
        let bath_s = i32_dec_string(self.bathrooms);
        s.append(bath_s.as_str());
        s.append(" baño/s ,");
        let rooms_s = i32_dec_string(self.rooms);
        s.append(rooms_s.as_str());
        s.append(" habitación/es. Tipo \"");
        s.append(self.kind.as_str());
        s.append("\" (");
        let surf_s = i32_dec_string(self.surface_square_meters);
        s.append(surf_s.as_str());
        s.append("m2)");
        proof {
            assert(s@ =~= render_house(self@));
        }
        s
    }
}

} // verus!
