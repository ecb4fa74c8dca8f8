use vstd::prelude::*;

use crate::models::HouseView;
use crate::repository::{
    floor_rule, has_kind, joined_rows, kind_name, spec_requires_floor, HouseRepository, StoreView,
};

verus! {

/// Every persisted dwelling's kind resolves to a seeded kind: referential
/// integrity is part of the store's invariant.
pub proof fn lemma_every_kind_resolves(r: &HouseRepository)
    requires
        r.wf(),
    ensures
        forall|i: int|
            0 <= i < r@.houses.len() ==> has_kind(r@.kinds, (#[trigger] r@.houses[i]).kind_id),
{
}

/// A normalized dwelling obeys the floor rule by construction: when its kind
/// does not call for a floor, the floor field is empty.
pub proof fn lemma_normalized_house_floor(
    kinds: Seq<crate::models::KindView>,
    id: int,
    street: Seq<char>,
    street_number: int,
    street_floor: Seq<char>,
    postal_code: Seq<char>,
    surface_square_meters: int,
    bathrooms: int,
    rooms: int,
    kind_id: int,
)
    ensures
        !spec_requires_floor(kinds, kind_id) ==> crate::service::normalized_house(
            kinds,
            id,
            street,
            street_number,
            street_floor,
            postal_code,
            surface_square_meters,
            bathrooms,
            rooms,
            kind_id,
        ).street_floor.len() == 0,
{
}

/// Inserting a row whose floor is erased where its kind does not call for
/// one keeps the floor rule over the whole store.
pub proof fn lemma_insert_preserves_floor_rule(pre: StoreView, post: StoreView, h: HouseView)
    requires
        floor_rule(pre),
        post.kinds == pre.kinds,
        post.houses == pre.houses.push(h),
        !spec_requires_floor(pre.kinds, h.kind_id) ==> h.street_floor.len() == 0,
    ensures
        floor_rule(post),
{
    assert forall|i: int|
        0 <= i < post.houses.len() && !spec_requires_floor(
            post.kinds,
            (#[trigger] post.houses[i]).kind_id,
        ) implies post.houses[i].street_floor.len() == 0 by {
        if i < pre.houses.len() {
            assert(post.houses[i] == pre.houses[i]);
        } else {
            assert(post.houses[i] == h);
        }
    }
}

/// Replacing a row by one whose floor is erased where its kind does not call
/// for one keeps the floor rule over the whole store.
pub proof fn lemma_update_preserves_floor_rule(
    pre: StoreView,
    post: StoreView,
    at: int,
    h: HouseView,
)
    requires
        floor_rule(pre),
        post.kinds == pre.kinds,
        0 <= at < pre.houses.len(),
        post.houses == pre.houses.update(at, h),
        !spec_requires_floor(pre.kinds, h.kind_id) ==> h.street_floor.len() == 0,
    ensures
        floor_rule(post),
{
    assert forall|i: int|
        0 <= i < post.houses.len() && !spec_requires_floor(
            post.kinds,
            (#[trigger] post.houses[i]).kind_id,
        ) implies post.houses[i].street_floor.len() == 0 by {
        if i != at {
            assert(post.houses[i] == pre.houses[i]);
        } else {
            assert(post.houses[i] == h);
        }
    }
}

/// Removing a row keeps the floor rule over the whole store.
pub proof fn lemma_delete_preserves_floor_rule(pre: StoreView, post: StoreView, at: int)
    requires
        floor_rule(pre),
        post.kinds == pre.kinds,
        0 <= at < pre.houses.len(),
        post.houses == pre.houses.remove(at),
    ensures
        floor_rule(post),
{
    assert forall|i: int|
        0 <= i < post.houses.len() && !spec_requires_floor(
            post.kinds,
            (#[trigger] post.houses[i]).kind_id,
        ) implies post.houses[i].street_floor.len() == 0 by {
        if i < at {
            assert(post.houses[i] == pre.houses[i]);
        } else {
            assert(post.houses[i] == pre.houses[i + 1]);
        }
    }
}

/// Round trip: after an insert under the next id, the listing holds the new
/// row exactly once — as its last line, joined with its kind's name and
/// carrying exactly the inserted fields — and no other line carries its id.
pub proof fn lemma_created_row_listed_once(pre: StoreView, post: StoreView, h: HouseView)
    requires
        forall|i: int| 0 <= i < pre.houses.len() ==> (#[trigger] pre.houses[i]).id < pre.next_id,
        post.kinds == pre.kinds,
        h.id == pre.next_id,
        post.houses == pre.houses.push(h),
    ensures
        joined_rows(post).len() == pre.houses.len() + 1,
        joined_rows(post)[pre.houses.len() as int] == h.joined(kind_name(post.kinds, h.kind_id)),
        forall|j: int|
            0 <= j < pre.houses.len() ==> (#[trigger] joined_rows(post)[j]).id != h.id,
{
    assert forall|j: int|
        0 <= j < pre.houses.len() implies (#[trigger] joined_rows(post)[j]).id != h.id by {
        assert(post.houses[j] == pre.houses[j]);
        assert(pre.houses[j].id < pre.next_id);
    }
}

/// Creating through the service keeps the floor rule: the inserted dwelling
/// is normalized, so its floor is empty wherever its kind does not call for
/// one.
pub proof fn lemma_create_house_keeps_floor_rule(
    pre: StoreView,
    post: StoreView,
    id: int,
    street: Seq<char>,
    street_number: int,
    street_floor: Seq<char>,
    postal_code: Seq<char>,
    surface_square_meters: int,
    bathrooms: int,
    rooms: int,
    kind_id: int,
)
    requires
        floor_rule(pre),
        post.kinds == pre.kinds,
        post.houses == pre.houses.push(
            crate::service::normalized_house(
                pre.kinds,
                id,
                street,
                street_number,
                street_floor,
                postal_code,
                surface_square_meters,
                bathrooms,
                rooms,
                kind_id,
            ),
        ),
    ensures
        floor_rule(post),
{
    lemma_insert_preserves_floor_rule(
        pre,
        post,
        crate::service::normalized_house(
            pre.kinds,
            id,
            street,
            street_number,
            street_floor,
            postal_code,
            surface_square_meters,
            bathrooms,
            rooms,
            kind_id,
        ),
    );
}

/// After replacing the one row carrying an id, the listing holds the new
/// fields exactly once — at that row's place, joined with its kind's name —
/// and no other line carries the id.
pub proof fn lemma_updated_row_listed_once(pre: StoreView, post: StoreView, at: int, h: HouseView)
    requires
        forall|i: int, j: int|
            0 <= i < j < pre.houses.len() ==> (#[trigger] pre.houses[i]).id < (
            #[trigger] pre.houses[j]).id,
        0 <= at < pre.houses.len(),
        pre.houses[at].id == h.id,
        post.kinds == pre.kinds,
        post.houses == pre.houses.update(at, h),
    ensures
        joined_rows(post).len() == pre.houses.len(),
        joined_rows(post)[at] == h.joined(kind_name(post.kinds, h.kind_id)),
        forall|j: int|
            0 <= j < post.houses.len() && j != at ==> (#[trigger] joined_rows(post)[j]).id
                != h.id,
{
    assert forall|j: int|
        0 <= j < post.houses.len() && j != at implies (#[trigger] joined_rows(post)[j]).id
        != h.id by {
        assert(post.houses[j] == pre.houses[j]);
        if j < at {
            assert(pre.houses[j].id < pre.houses[at].id);
        } else {
            assert(pre.houses[at].id < pre.houses[j].id);
        }
        assert(joined_rows(post)[j].id == post.houses[j].id);
    }
}

/// After deleting the one row carrying an id, no listed row carries it; a
/// second delete of the same id therefore affects zero rows and is no error.
pub proof fn lemma_delete_removes_id(pre: StoreView, post: StoreView, at: int)
    requires
        forall|i: int, j: int|
            0 <= i < j < pre.houses.len() ==> (#[trigger] pre.houses[i]).id < (
            #[trigger] pre.houses[j]).id,
        0 <= at < pre.houses.len(),
        post.kinds == pre.kinds,
        post.houses == pre.houses.remove(at),
    ensures
        forall|j: int|
            0 <= j < post.houses.len() ==> (#[trigger] post.houses[j]).id != pre.houses[at].id,
        forall|j: int|
            0 <= j < joined_rows(post).len() ==> (#[trigger] joined_rows(post)[j]).id
                != pre.houses[at].id,
{
    assert forall|j: int|
        0 <= j < post.houses.len() implies (#[trigger] post.houses[j]).id
        != pre.houses[at].id by {
        if j < at {
            assert(post.houses[j] == pre.houses[j]);
            assert(pre.houses[j].id < pre.houses[at].id);
        } else {
            assert(post.houses[j] == pre.houses[j + 1]);
            assert(pre.houses[at].id < pre.houses[j + 1].id);
        }
    }
    assert forall|j: int|
        0 <= j < joined_rows(post).len() implies (#[trigger] joined_rows(post)[j]).id
        != pre.houses[at].id by {
        assert(joined_rows(post)[j].id == post.houses[j].id);
    }
}

} // verus!
