use vstd::prelude::*;

use crate::models::{
    House, HouseKind, HouseView, HouseWithKind, HouseWithKindView, KindView, NewHouse,
    spec_kind_requires_floor,
};

verus! {

/// An opaque store failure; the service classifies it, the store does not.
#[derive(Debug)]
pub struct StoreError;

/// Mathematical model of the store: the seeded kinds, the dwelling rows in
/// listing order, and the next id to assign.
#[verifier::ext_equal]
pub ghost struct StoreView {
    pub kinds: Seq<KindView>,
    pub houses: Seq<HouseView>,
    pub next_id: int,
}

/// Whether some seeded kind carries the given id.
pub open spec fn has_kind(kinds: Seq<KindView>, id: int) -> bool {
    exists|i: int| 0 <= i < kinds.len() && #[trigger] kinds[i].id == id
}

/// The display name of the kind with the given id.
pub open spec fn kind_name(kinds: Seq<KindView>, id: int) -> Seq<char> {
    kinds[choose|i: int| 0 <= i < kinds.len() && #[trigger] kinds[i].id == id].kind
}

/// Whether the kind with the given id calls for a floor field.
pub open spec fn spec_requires_floor(kinds: Seq<KindView>, id: int) -> bool {
    has_kind(kinds, id) && spec_kind_requires_floor(kind_name(kinds, id))
}

/// Every row joined with its kind's display name, in listing order.
pub open spec fn joined_rows(v: StoreView) -> Seq<HouseWithKindView> {
    v.houses.map_values(|h: HouseView| h.joined(kind_name(v.kinds, h.kind_id)))
}

/// The dwellings' kinds never go without a floor rule: a row whose kind does
/// not call for a floor holds the empty string there.
pub open spec fn floor_rule(v: StoreView) -> bool {
    forall|i: int|
        0 <= i < v.houses.len() && !spec_requires_floor(v.kinds, (#[trigger] v.houses[i]).kind_id)
            ==> v.houses[i].street_floor.len() == 0
}

/// The in-memory store: seeded kinds, dwelling rows kept sorted by id, and
/// the next id to assign.
pub struct HouseRepository {
    pub kinds: Vec<HouseKind>,
    pub houses: Vec<House>,
    pub next_id: i32,
}

impl View for HouseRepository {
    type V = StoreView;

    open spec fn view(&self) -> StoreView {
        StoreView {
            kinds: self.kinds@.map_values(|k: HouseKind| k@),
            houses: self.houses@.map_values(|h: House| h@),
            next_id: self.next_id as int,
        }
    }
}

/// Kind ids strictly ascend, starting from one.
pub open spec fn kinds_wf(kinds: Seq<KindView>) -> bool {
    &&& forall|i: int, j: int| 0 <= i < j < kinds.len() ==> #[trigger] kinds[i].id < #[trigger] kinds[j].id
    &&& forall|i: int| 0 <= i < kinds.len() ==> (#[trigger] kinds[i]).id >= 1
}

impl HouseRepository {
    /// The store's invariant: rows strictly sorted by id, every row
    /// well-formed and below the next id to assign, and every row's kind
    /// resolving to a seeded kind.
    pub open spec fn wf(&self) -> bool {
        &&& kinds_wf(self@.kinds)
        &&& forall|i: int, j: int|
            0 <= i < j < self@.houses.len() ==> (#[trigger] self@.houses[i]).id < (
            #[trigger] self@.houses[j]).id
        &&& forall|i: int| 0 <= i < self@.houses.len() ==> (#[trigger] self@.houses[i]).wf()
        &&& forall|i: int|
            0 <= i < self@.houses.len() ==> (#[trigger] self@.houses[i]).id < self@.next_id
        &&& forall|i: int|
            0 <= i < self@.houses.len() ==> has_kind(self@.kinds, (
            #[trigger] self@.houses[i]).kind_id)
        &&& 1 <= self@.next_id <= i32::MAX
    }

    /// Opens the store over externally seeded kinds and rows. The next id to
    /// assign continues after the highest stored id.
    pub fn new(kinds: Vec<HouseKind>, houses: Vec<House>) -> (r: HouseRepository)
        requires
            kinds_wf(kinds@.map_values(|k: HouseKind| k@)),
            forall|i: int, j: int|
                0 <= i < j < houses@.len() ==> (#[trigger] houses@[i])@.id < (
                #[trigger] houses@[j])@.id,
            forall|i: int| 0 <= i < houses@.len() ==> (#[trigger] houses@[i])@.wf(),
            forall|i: int| 0 <= i < houses@.len() ==> (#[trigger] houses@[i])@.id < i32::MAX,
            forall|i: int|
                0 <= i < houses@.len() ==> has_kind(
                    kinds@.map_values(|k: HouseKind| k@),
                    (#[trigger] houses@[i])@.kind_id,
                ),
        ensures
            r.wf(),
            r@.kinds == kinds@.map_values(|k: HouseKind| k@),
            r@.houses == houses@.map_values(|h: House| h@),
            r@.next_id == if houses@.len() == 0 {
                1int
            } else {
                houses@[houses@.len() - 1]@.id + 1
            },
    {
        let n = houses.len();
        let next_id: i32 = if n == 0 {
            1
        } else {
            houses[n - 1].id + 1
        };
        proof {
            assert(forall|i: int|
                0 <= i < houses@.len() ==> (#[trigger] houses@[i])@.id < next_id as int);
        }
        HouseRepository { kinds, houses, next_id }
    }

    /// Every dwelling joined with its kind's display name, ordered by id.
    pub fn find_all(&self) -> (r: Result<Vec<HouseWithKind>, StoreError>)
        requires
            self.wf(),
        ensures
            r is Ok,
            r.unwrap()@.map_values(|h: HouseWithKind| h@) == joined_rows(self@),
    {
        let mut out: Vec<HouseWithKind> = Vec::new();
        let n = self.houses.len();
        let mut i: usize = 0;
        while i < n
            invariant
                self.wf(),
                0 <= i <= n,
                n == self.houses.len(),
                out@.len() == i,
                forall|k: int|
                    0 <= k < i ==> (#[trigger] out@[k])@ == joined_rows(self@)[k],
            decreases n - i,
        {
            let h = &self.houses[i];
            proof {
                assert(h@ == self@.houses[i as int]);
                assert(has_kind(self@.kinds, self@.houses[i as int].kind_id));
            }
            let ki = self.find_kind_index(h.kind_id);
            let hk = HouseWithKind {
                id: h.id,
                street: h.street.clone(),
                street_number: h.street_number,
                street_floor: h.street_floor.clone(),
                postal_code: h.postal_code.clone(),
                surface_square_meters: h.surface_square_meters,
                bathrooms: h.bathrooms,
                rooms: h.rooms,
                kind_id: h.kind_id,
                kind: self.kinds[ki].kind.clone(),
            };
            proof {
                assert(hk@ == joined_rows(self@)[i as int]);
            }
            out.push(hk);
            i = i + 1;
        }
        proof {
            assert(out@.map_values(|h: HouseWithKind| h@) =~= joined_rows(self@));
        }
        Ok(out)
    }

    /// The index of the kind with the given id; callable only when it
    /// resolves.
    fn find_kind_index(&self, id: i32) -> (r: usize)
        requires
            self.wf(),
            has_kind(self@.kinds, id as int),
        ensures
            r < self@.kinds.len(),
            self@.kinds[r as int].id == id as int,
            self@.kinds[r as int].kind == kind_name(self@.kinds, id as int),
    {
        let n = self.kinds.len();
        let mut i: usize = 0;
        while i < n
            invariant
                self.wf(),
                has_kind(self@.kinds, id as int),
                0 <= i <= n,
                n == self@.kinds.len(),
                forall|k: int| 0 <= k < i ==> #[trigger] self@.kinds[k].id != id as int,
            decreases n - i,
        {
            if self.kinds[i].id == id {
                return i;
            }
            i = i + 1;
        }
        proof {
            assert(!has_kind(self@.kinds, id as int));
        }
        unreached()
    }

    /// Whether any kind carries the given id.
    pub fn kind_exists(&self, id: i32) -> (r: bool)
        requires
            self.wf(),
        ensures
            r == has_kind(self@.kinds, id as int),
    {
        let n = self.kinds.len();
        let mut i: usize = 0;
        while i < n
            invariant
                0 <= i <= n,
                n == self@.kinds.len(),
                self@.kinds == self.kinds@.map_values(|k: HouseKind| k@),
                forall|k: int| 0 <= k < i ==> #[trigger] self@.kinds[k].id != id as int,
            decreases n - i,
        {
            if self.kinds[i].id == id {
                proof {
                    assert(self@.kinds[i as int].id == id as int);
                }
                return true;
            }
            i = i + 1;
        }
        false
    }

    /// Whether the kind with the given id calls for a floor field.
    pub fn requires_floor(&self, id: i32) -> (r: bool)
        requires
            self.wf(),
        ensures
            r == spec_requires_floor(self@.kinds, id as int),
    {
        if !self.kind_exists(id) {
            return false;
        }
        let ki = self.find_kind_index(id);
        crate::models::kind_requires_floor(&self.kinds[ki].kind)
    }

    /// Every seeded kind, ordered by id ascending.
    pub fn find_all_kinds(&self) -> (r: Result<Vec<HouseKind>, StoreError>)
        requires
            self.wf(),
        ensures
            r is Ok,
            r.unwrap()@.map_values(|k: HouseKind| k@) == self@.kinds,
    {
        let mut out: Vec<HouseKind> = Vec::new();
        let n = self.kinds.len();
        let mut i: usize = 0;
        while i < n
            invariant
                0 <= i <= n,
                n == self.kinds.len(),
                self@.kinds == self.kinds@.map_values(|k: HouseKind| k@),
                out@.len() == i,
                forall|k: int| 0 <= k < i ==> (#[trigger] out@[k])@ == self@.kinds[k],
            decreases n - i,
        {
            let k = &self.kinds[i];
            out.push(HouseKind { id: k.id, kind: k.kind.clone() });
            i = i + 1;
        }
        proof {
            assert(out@.map_values(|k: HouseKind| k@) =~= self@.kinds);
        }
        Ok(out)
    }

    /// Inserts one dwelling, assigning it the next id. Fails only when the
    /// kind does not resolve or when ids are exhausted.
    pub fn create(&mut self, new_house: &NewHouse) -> (r: Result<usize, StoreError>)
        requires
            old(self).wf(),
            new_house@.street_number >= 0,
            new_house@.surface_square_meters >= 0,
            new_house@.bathrooms >= 0,
            new_house@.rooms >= 0,
        ensures
            final(self).wf(),
            final(self)@.kinds == old(self)@.kinds,
            match r {
                Ok(n) => {
                    &&& n == 1
                    &&& has_kind(old(self)@.kinds, new_house@.kind_id)
                    &&& old(self)@.next_id < i32::MAX as int
                    &&& final(self)@.houses == old(self)@.houses.push(
                        new_house@.with_id(old(self)@.next_id),
                    )
                    &&& final(self)@.next_id == old(self)@.next_id + 1
                },
                Err(_) => {
                    &&& final(self)@ == old(self)@
                    &&& (!has_kind(old(self)@.kinds, new_house@.kind_id) || old(self)@.next_id
                        == i32::MAX as int)
                },
            },
    {
        if !self.kind_exists(new_house.kind_id) {
            return Err(StoreError);
        }
        if self.next_id == i32::MAX {
            return Err(StoreError);
        }
        let row = House {
            id: self.next_id,
            street: new_house.street.clone(),
            street_number: new_house.street_number,
            street_floor: new_house.street_floor.clone(),
            postal_code: new_house.postal_code.clone(),
            surface_square_meters: new_house.surface_square_meters,
            bathrooms: new_house.bathrooms,
            rooms: new_house.rooms,
            kind_id: new_house.kind_id,
        };
        self.houses.push(row);
        self.next_id = self.next_id + 1;
        proof {
            assert(self@.houses =~= old(self)@.houses.push(
                new_house@.with_id(old(self)@.next_id),
            ));
        }
        Ok(1)
    }

    /// The position of the row with the given id, if any.
    fn find_house_index(&self, id: i32) -> (r: Option<usize>)
        requires
            self.wf(),
        ensures
            match r {
                Some(i) => i < self@.houses.len() && self@.houses[i as int].id == id as int,
                None => forall|k: int|
                    0 <= k < self@.houses.len() ==> (#[trigger] self@.houses[k]).id != id as int,
            },
    {
        let n = self.houses.len();
        let mut i: usize = 0;
        while i < n
            invariant
                0 <= i <= n,
                n == self@.houses.len(),
                self@.houses == self.houses@.map_values(|h: House| h@),
                forall|k: int| 0 <= k < i ==> (#[trigger] self@.houses[k]).id != id as int,
            decreases n - i,
        {
            if self.houses[i].id == id {
                return Some(i);
            }
            i = i + 1;
        }
        None
    }

    /// Updates the row carrying the given dwelling's id, replacing every
    /// other field. A missing id is no error: zero rows are affected.
    pub fn update(&mut self, house: House) -> (r: Result<usize, StoreError>)
        requires
            old(self).wf(),
            house@.wf(),
        ensures
            final(self).wf(),
            final(self)@.kinds == old(self)@.kinds,
            final(self)@.next_id == old(self)@.next_id,
            match r {
                Ok(n) => {
                    &&& has_kind(old(self)@.kinds, house@.kind_id)
                    &&& if exists|i: int|
                        0 <= i < old(self)@.houses.len() && (#[trigger] old(
                            self,
                        )@.houses[i]).id == house@.id {
                        let i = choose|i: int|
                            0 <= i < old(self)@.houses.len() && (#[trigger] old(
                                self,
                            )@.houses[i]).id == house@.id;
                        n == 1 && final(self)@.houses == old(self)@.houses.update(i, house@)
                    } else {
                        n == 0 && final(self)@ == old(self)@
                    }
                },
                Err(_) => final(self)@ == old(self)@ && !has_kind(old(self)@.kinds, house@.kind_id),
            },
    {
        if !self.kind_exists(house.kind_id) {
            return Err(StoreError);
        }
        match self.find_house_index(house.id) {
            Some(i) => {
                let ghost pre = self@.houses;
                self.houses.remove(i);
                self.houses.insert(i, house);
                proof {
                    assert(self@.houses =~= pre.update(i as int, house@));
                    let j = choose|j: int|
                        0 <= j < pre.len() && (#[trigger] pre[j]).id == house@.id;
                    assert(pre[i as int].id == house@.id);
                    assert(j == i as int);
                }
                Ok(1)
            },
            None => Ok(0),
        }
    }

    /// Deletes the row with the given id. A missing id is no error: zero
    /// rows are affected.
    pub fn delete(&mut self, uniq_id: i32) -> (r: Result<usize, StoreError>)
        requires
            old(self).wf(),
        ensures
            final(self).wf(),
            final(self)@.kinds == old(self)@.kinds,
            final(self)@.next_id == old(self)@.next_id,
            r is Ok,
            if exists|i: int|
                0 <= i < old(self)@.houses.len() && (#[trigger] old(self)@.houses[i]).id
                    == uniq_id as int {
                let i = choose|i: int|
                    0 <= i < old(self)@.houses.len() && (#[trigger] old(self)@.houses[i]).id
                        == uniq_id as int;
                r.unwrap() == 1 && final(self)@.houses == old(self)@.houses.remove(i)
            } else {
                r.unwrap() == 0 && final(self)@ == old(self)@
            },
    {
        match self.find_house_index(uniq_id) {
            Some(i) => {
                let ghost pre = self@.houses;
                self.houses.remove(i);
                proof {
                    let j = choose|j: int|
                        0 <= j < pre.len() && (#[trigger] pre[j]).id == uniq_id as int;
                    assert(pre[i as int].id == uniq_id as int);
                    assert(j == i as int);
                    assert(self@.houses =~= pre.remove(i as int));
                }
                Ok(1)
            },
            None => Ok(0),
        }
    }
}

} // verus!
