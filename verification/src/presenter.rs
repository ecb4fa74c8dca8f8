use vstd::prelude::*;

use crate::models::{HouseWithKind, HouseWithKindView};
use crate::render::render_house;
use crate::repository::{has_kind, joined_rows, StoreView};
use crate::service::{id_parses, normalized_house, HouseService};
use crate::text::{contains_seq, dec_str, eq_ignore_case, is_blank, spec_parse_nonneg};

verus! {

/// A user-initiated command, as the widgets emit them.
#[derive(Clone, Copy, PartialEq, Eq, Structural, Debug)]
pub enum Intent {
    Create,
    Update,
    Delete,
    Select,
    Filter,
    Save,
}

/// What the presenter reads from the widgets when an intent arrives: the
/// filter text, the highlighted list line (if any), the id display and the
/// form fields, all verbatim.
pub struct ViewInput {
    pub filter_text: String,
    pub selected_text: Option<String>,
    pub id_text: String,
    pub street: String,
    pub street_number: String,
    pub street_floor: String,
    pub postal_code: String,
    pub surface_square_meters: String,
    pub bathrooms: String,
    pub rooms: String,
    pub kind_id: i32,
}

/// What the presenter asks of the widgets after an intent: a status-line
/// message, clearing the form, populating it from a row, reloading the list
/// with the given lines, and further intents to enqueue, in order.
pub struct Effects {
    pub status: Option<String>,
    pub clear_form: bool,
    pub populate: Option<HouseWithKind>,
    pub list: Option<Vec<String>>,
    pub followups: Vec<Intent>,
}

/// Non-negative figures, as every row read from the store carries.
pub open spec fn row_figures_ok(h: HouseWithKindView) -> bool {
    &&& h.id >= 0
    &&& h.street_number >= 0
    &&& h.surface_square_meters >= 0
    &&& h.bathrooms >= 0
    &&& h.rooms >= 0
}

/// Whether a row passes a (non-blank) filter: its id, written in decimal,
/// holds the filter text as a substring.
pub open spec fn passes_filter(h: HouseWithKindView, f: Seq<char>) -> bool {
    contains_seq(dec_str(h.id), f)
}

/// The rows the list shows under a filter: all of them when the filter is
/// blank, else exactly those whose decimal id holds the filter text.
pub open spec fn spec_filtered(rows: Seq<HouseWithKindView>, f: Seq<char>) -> Seq<
    HouseWithKindView,
> {
    if is_blank(f) {
        rows
    } else {
        rows.filter(|h: HouseWithKindView| passes_filter(h, f))
    }
}

/// A field-for-field copy of a projected row.
pub fn clone_row(h: &HouseWithKind) -> (r: HouseWithKind)
    ensures
        r@ == h@,
{
    HouseWithKind {
        id: h.id,
        street: h.street.clone(),
        street_number: h.street_number,
        street_floor: h.street_floor.clone(),
        postal_code: h.postal_code.clone(),
        surface_square_meters: h.surface_square_meters,
        bathrooms: h.bathrooms,
        rooms: h.rooms,
        kind_id: h.kind_id,
        kind: h.kind.clone(),
    }
}

/// Keeps exactly the rows the filter lets through, in order: all of them for
/// a blank filter, else those whose decimal id holds the filter text.
pub fn filter_houses(rows: &Vec<HouseWithKind>, filter: &str) -> (out: Vec<HouseWithKind>)
    requires
        forall|i: int| 0 <= i < rows@.len() ==> row_figures_ok((#[trigger] rows@[i])@),
    ensures
        out@.map_values(|h: HouseWithKind| h@) == spec_filtered(
            rows@.map_values(|h: HouseWithKind| h@),
            filter@,
        ),
        forall|k: int| 0 <= k < out@.len() ==> row_figures_ok((#[trigger] out@[k])@),
{
    let ghost rows_v = rows@.map_values(|h: HouseWithKind| h@);
    let blank = crate::text::str_is_blank(filter);
    let mut out: Vec<HouseWithKind> = Vec::new();
    let n = rows.len();
    let mut i: usize = 0;
    while i < n
        invariant
            0 <= i <= n,
            n == rows@.len(),
            rows_v == rows@.map_values(|h: HouseWithKind| h@),
            forall|k: int| 0 <= k < rows@.len() ==> row_figures_ok((#[trigger] rows@[k])@),
            blank == is_blank(filter@),
            out@.map_values(|h: HouseWithKind| h@) == spec_filtered(
                rows_v.subrange(0, i as int),
                filter@,
            ),
            forall|k: int| 0 <= k < out@.len() ==> row_figures_ok((#[trigger] out@[k])@),
        decreases n - i,
    {
        let ghost prev = rows_v.subrange(0, i as int);
        let ghost cur = rows_v.subrange(0, i + 1 as int);
        proof {
            assert(cur.drop_last() =~= prev);
            assert(cur.last() == rows_v[i as int]);
        }
        let row = &rows[i];
        let keep: bool = if blank {
            true
        } else {
            let id_s = crate::text::i32_dec_string(row.id);
            crate::text::str_contains(id_s.as_str(), filter)
        };
        if keep {
            out.push(clone_row(row));
        }
        proof {
            if !is_blank(filter@) {
                reveal_with_fuel(Seq::<HouseWithKindView>::filter, 2);
                assert(cur.filter(|h: HouseWithKindView| passes_filter(h, filter@))
                    == if passes_filter(cur.last(), filter@) {
                    prev.filter(|h: HouseWithKindView| passes_filter(h, filter@)).push(cur.last())
                } else {
                    prev.filter(|h: HouseWithKindView| passes_filter(h, filter@))
                });
            }
            assert(out@.map_values(|h: HouseWithKind| h@) =~= spec_filtered(cur, filter@));
        }
        i = i + 1;
    }
    proof {
        assert(rows_v.subrange(0, n as int) =~= rows_v);
    }
    out
}

/// The first listed row whose rendering equals the highlighted text, compared
/// without regard to ASCII case; ties go to the earliest row.
pub fn resolve_selection(rows: &Vec<HouseWithKind>, text: &str) -> (r: Option<usize>)
    requires
        forall|i: int| 0 <= i < rows@.len() ==> row_figures_ok((#[trigger] rows@[i])@),
    ensures
        match r {
            Some(i) => {
                &&& i < rows@.len()
                &&& eq_ignore_case(render_house(rows@[i as int]@), text@)
                &&& forall|j: int|
                    0 <= j < i ==> !eq_ignore_case(render_house((#[trigger] rows@[j])@), text@)
            },
            None => forall|j: int|
                0 <= j < rows@.len() ==> !eq_ignore_case(
                    render_house((#[trigger] rows@[j])@),
                    text@,
                ),
        },
{
    let n = rows.len();
    let mut i: usize = 0;
    while i < n
        invariant
            0 <= i <= n,
            n == rows@.len(),
            forall|k: int| 0 <= k < rows@.len() ==> row_figures_ok((#[trigger] rows@[k])@),
            forall|j: int|
                0 <= j < i ==> !eq_ignore_case(render_house((#[trigger] rows@[j])@), text@),
        decreases n - i,
    {
        let rendered = rows[i].to_string();
        if crate::text::str_eq_ignore_case(rendered.as_str(), text) {
            return Some(i);
        }
        i = i + 1;
    }
    None
}

/// Renders every row to its display line, keeping the order.
pub fn render_rows(rows: &Vec<HouseWithKind>) -> (out: Vec<String>)
    requires
        forall|i: int| 0 <= i < rows@.len() ==> row_figures_ok((#[trigger] rows@[i])@),
    ensures
        out@.map_values(|s: String| s@) == rows@.map_values(
            |h: HouseWithKind| render_house(h@),
        ),
{
    let mut out: Vec<String> = Vec::new();
    let n = rows.len();
    let mut i: usize = 0;
    while i < n
        invariant
            0 <= i <= n,
            n == rows@.len(),
            forall|k: int| 0 <= k < rows@.len() ==> row_figures_ok((#[trigger] rows@[k])@),
            out@.len() == i,
            forall|k: int| 0 <= k < i ==> (#[trigger] out@[k])@ == render_house(rows@[k]@),
        decreases n - i,
    {
        out.push(rows[i].to_string());
        i = i + 1;
    }
    proof {
        assert(out@.map_values(|s: String| s@) =~= rows@.map_values(
            |h: HouseWithKind| render_house(h@),
        ));
    }
    out
}

/// Effects that leave the widgets alone.
fn no_effects() -> (r: Effects)
    ensures
        r.status is None,
        !r.clear_form,
        r.populate is None,
        r.list is None,
        r.followups@ == Seq::<Intent>::empty(),
{
    let followups: Vec<Intent> = Vec::new();
    proof {
        assert(followups@ =~= Seq::<Intent>::empty());
    }
    Effects { status: None, clear_form: false, populate: None, list: None, followups }
}

/// Whether every numeric form field parses and the chosen kind is seeded:
/// exactly when creating or updating from these fields succeeds.
pub open spec fn fields_valid(kinds: Seq<crate::models::KindView>, ui: &ViewInput) -> bool {
    &&& spec_parse_nonneg(ui.street_number@) is Some
    &&& spec_parse_nonneg(ui.surface_square_meters@) is Some
    &&& spec_parse_nonneg(ui.bathrooms@) is Some
    &&& spec_parse_nonneg(ui.rooms@) is Some
    &&& has_kind(kinds, ui.kind_id as int)
}

/// The dwelling the form fields normalize to, under the given id.
pub open spec fn view_normalized(
    kinds: Seq<crate::models::KindView>,
    id: int,
    ui: &ViewInput,
) -> crate::models::HouseView {
    normalized_house(
        kinds,
        id,
        ui.street@,
        spec_parse_nonneg(ui.street_number@).unwrap(),
        ui.street_floor@,
        ui.postal_code@,
        spec_parse_nonneg(ui.surface_square_meters@).unwrap(),
        spec_parse_nonneg(ui.bathrooms@).unwrap(),
        spec_parse_nonneg(ui.rooms@).unwrap(),
        ui.kind_id as int,
    )
}

/// The stateful mediator between the widgets and the service: it owns the
/// service and the three derived button flags.
pub struct Presenter {
    pub service: HouseService,
    pub save_armed: bool,
    pub update_armed: bool,
    pub delete_armed: bool,
}

impl View for Presenter {
    type V = StoreView;

    open spec fn view(&self) -> StoreView {
        self.service@
    }
}

impl Presenter {
    pub open spec fn wf(&self) -> bool {
        self.service.wf()
    }

    /// A fresh presenter: nothing selected, so only Save starts armed.
    pub fn new(service: HouseService) -> (r: Presenter)
        ensures
            r.service == service,
            r.save_armed,
            !r.update_armed,
            !r.delete_armed,
    {
        Presenter { service, save_armed: true, update_armed: false, delete_armed: false }
    }

    /// Rows from the service, known well-figured and matching the model.
    fn listed_rows(&mut self) -> (rows: Vec<HouseWithKind>)
        requires
            old(self).wf(),
        ensures
            *final(self) == *old(self),
            rows@.map_values(|h: HouseWithKind| h@) == joined_rows(old(self)@),
            forall|k: int| 0 <= k < rows@.len() ==> row_figures_ok((#[trigger] rows@[k])@),
    {
        let rows = self.service.get_houses().unwrap();
        proof {
            let pre = old(self)@;
            let rv = rows@.map_values(|h: HouseWithKind| h@);
            assert(rv == joined_rows(pre));
            assert(rv.len() == pre.houses.len());
            assert forall|k: int| 0 <= k < rows@.len() implies row_figures_ok(
                (#[trigger] rows@[k])@,
            ) by {
                assert(rows@[k]@ == rv[k]);
                assert(rv[k] == pre.houses[k].joined(
                    crate::repository::kind_name(pre.kinds, pre.houses[k].kind_id),
                ));
                assert(pre.houses[k].wf());
            }
        }
        rows
    }

    /// Dispatches one intent, per the fixed table: what each one does to the
    /// store, to the three button flags and to the widgets.
    #[verifier::rlimit(100)]
    pub fn handle(&mut self, intent: Intent, ui: &ViewInput) -> (r: Effects)
        requires
            old(self).wf(),
        ensures
            final(self).wf(),
            final(self)@.kinds == old(self)@.kinds,
            match intent {
                Intent::Create => {
                    &&& final(self)@ == old(self)@
                    &&& final(self).save_armed
                    &&& final(self).update_armed == old(self).update_armed
                    &&& final(self).delete_armed == old(self).delete_armed
                    &&& r.clear_form
                    &&& r.status is Some && r.status.unwrap()@ == "Complete los campos"@
                    &&& r.populate is None && r.list is None
                    &&& r.followups@ == seq![Intent::Filter]
                },
                Intent::Filter => {
                    &&& final(self)@ == old(self)@
                    &&& !final(self).save_armed
                    &&& final(self).update_armed == old(self).update_armed
                    &&& final(self).delete_armed == old(self).delete_armed
                    &&& !r.clear_form && r.status is None && r.populate is None
                    &&& r.list is Some
                    &&& r.list.unwrap()@.map_values(|s: String| s@) == spec_filtered(
                        joined_rows(old(self)@),
                        ui.filter_text@,
                    ).map_values(|h: HouseWithKindView| render_house(h))
                    &&& r.followups@ == seq![Intent::Select]
                },
                Intent::Select => {
                    &&& final(self)@ == old(self)@
                    &&& final(self).save_armed
                    &&& !r.clear_form && r.list is None
                    &&& r.followups@ == Seq::<Intent>::empty()
                    &&& match ui.selected_text {
                        None => {
                            &&& !final(self).update_armed
                            &&& !final(self).delete_armed
                            &&& r.populate is None && r.status is None
                        },
                        Some(text) => {
                            let rows = joined_rows(old(self)@);
                            if exists|i: int|
                                0 <= i < rows.len() && eq_ignore_case(
                                    render_house(#[trigger] rows[i]),
                                    text@,
                                ) {
                                &&& final(self).update_armed && final(self).delete_armed
                                &&& r.populate is Some && r.status is Some
                                &&& exists|i: int|
                                    {
                                        &&& 0 <= i < rows.len()
                                        &&& r.populate.unwrap()@ == #[trigger] rows[i]
                                        &&& eq_ignore_case(render_house(rows[i]), text@)
                                        &&& forall|j: int|
                                            0 <= j < i ==> !eq_ignore_case(
                                                render_house(#[trigger] rows[j]),
                                                text@,
                                            )
                                        &&& r.status.unwrap()@ == "Elemento #"@ + dec_str(
                                            rows[i].id,
                                        ) + " seleccionado"@
                                    }
                            } else {
                                &&& final(self).update_armed == old(self).update_armed
                                &&& final(self).delete_armed == old(self).delete_armed
                                &&& r.populate is None && r.status is None
                            }
                        },
                    }
                },
                Intent::Save => {
                    &&& final(self).update_armed == old(self).update_armed
                    &&& final(self).delete_armed == old(self).delete_armed
                    &&& r.populate is None && r.list is None
                    &&& if !old(self).save_armed {
                        &&& final(self)@ == old(self)@
                        &&& final(self).save_armed == old(self).save_armed
                        &&& r.status is None && !r.clear_form
                        &&& r.followups@ == Seq::<Intent>::empty()
                    } else {
                        if fields_valid(old(self)@.kinds, ui) && old(self)@.next_id
                            < i32::MAX as int {
                            &&& final(self)@.houses == old(self)@.houses.push(
                                view_normalized(old(self)@.kinds, old(self)@.next_id, ui),
                            )
                            &&& final(self)@.next_id == old(self)@.next_id + 1
                            &&& !final(self).save_armed
                            &&& r.clear_form
                            &&& r.followups@ == seq![Intent::Filter, Intent::Select]
                            &&& r.status is Some && r.status.unwrap()@
                                == "Elemento nuevo guardado"@
                        } else {
                            &&& final(self)@ == old(self)@
                            &&& final(self).save_armed
                            &&& !r.clear_form
                            &&& r.followups@ == Seq::<Intent>::empty()
                            &&& r.status is Some && r.status.unwrap()@
                                == "Error guardando el nuevo elemento"@
                        }
                    }
                },
                Intent::Update => {
                    &&& final(self).save_armed == old(self).save_armed
                    &&& final(self).update_armed == old(self).update_armed
                    &&& final(self).delete_armed == old(self).delete_armed
                    &&& final(self)@.next_id == old(self)@.next_id
                    &&& r.populate is None && r.list is None
                    &&& match ui.selected_text {
                        None => {
                            &&& final(self)@ == old(self)@
                            &&& r.status is None && !r.clear_form
                            &&& r.followups@ == Seq::<Intent>::empty()
                        },
                        Some(text) => {
                            let rows = joined_rows(old(self)@);
                            if exists|i: int|
                                0 <= i < rows.len() && eq_ignore_case(
                                    render_house(#[trigger] rows[i]),
                                    text@,
                                ) {
                                &&& r.clear_form
                                &&& r.followups@ == seq![Intent::Filter, Intent::Select]
                                &&& r.status is Some
                                &&& if id_parses(ui.id_text@) && fields_valid(
                                    old(self)@.kinds,
                                    ui,
                                ) {
                                    let idv = spec_parse_nonneg(ui.id_text@).unwrap();
                                    let hv = view_normalized(old(self)@.kinds, idv, ui);
                                    &&& r.status.unwrap()@ == "Elemento #"@ + ui.id_text@
                                        + " actualizado"@
                                    &&& if exists|i: int|
                                        0 <= i < old(self)@.houses.len() && (#[trigger] old(
                                            self,
                                        )@.houses[i]).id == idv {
                                        let i = choose|i: int|
                                            0 <= i < old(self)@.houses.len() && (#[trigger] old(
                                                self,
                                            )@.houses[i]).id == idv;
                                        final(self)@.houses == old(self)@.houses.update(i, hv)
                                    } else {
                                        final(self)@ == old(self)@
                                    }
                                } else {
                                    &&& final(self)@ == old(self)@
                                    &&& r.status.unwrap()@ == "Error actualizando el elemento #"@
                                        + ui.id_text@
                                }
                            } else {
                                &&& final(self)@ == old(self)@
                                &&& r.status is None && !r.clear_form
                                &&& r.followups@ == Seq::<Intent>::empty()
                            }
                        },
                    }
                },
                Intent::Delete => {
                    &&& !final(self).save_armed
                    &&& final(self).update_armed == old(self).update_armed
                    &&& final(self).delete_armed == old(self).delete_armed
                    &&& final(self)@.next_id == old(self)@.next_id
                    &&& r.populate is None && r.list is None
                    &&& match ui.selected_text {
                        None => {
                            &&& final(self)@ == old(self)@
                            &&& r.status is None && !r.clear_form
                            &&& r.followups@ == Seq::<Intent>::empty()
                        },
                        Some(text) => {
                            let rows = joined_rows(old(self)@);
                            if exists|i: int|
                                0 <= i < rows.len() && eq_ignore_case(
                                    render_house(#[trigger] rows[i]),
                                    text@,
                                ) {
                                &&& r.clear_form
                                &&& r.followups@ == seq![Intent::Filter, Intent::Select]
                                &&& r.status is Some && r.status.unwrap()@ == "Elemento #"@
                                    + ui.id_text@ + " eliminado"@
                                &&& exists|i: int|
                                    {
                                        &&& 0 <= i < rows.len()
                                        &&& eq_ignore_case(render_house(#[trigger] rows[i]), text@)
                                        &&& forall|j: int|
                                            0 <= j < i ==> !eq_ignore_case(
                                                render_house(#[trigger] rows[j]),
                                                text@,
                                            )
                                        &&& final(self)@.houses == old(self)@.houses.remove(i)
                                    }
                            } else {
                                &&& final(self)@ == old(self)@
                                &&& r.status is None && !r.clear_form
                                &&& r.followups@ == Seq::<Intent>::empty()
                            }
                        },
                    }
                },
            },
    {
        match intent {
            Intent::Create => {
                self.save_armed = true;
                let mut followups: Vec<Intent> = Vec::new();
                followups.push(Intent::Filter);
                proof {
                    assert(followups@ =~= seq![Intent::Filter]);
                }
                Effects {
                    status: Some(String::from_str("Complete los campos")),
                    clear_form: true,
                    populate: None,
                    list: None,
                    followups,
                }
            },
            Intent::Filter => {
                self.save_armed = false;
                let rows = self.listed_rows();
                let filtered = filter_houses(&rows, ui.filter_text.as_str());
                let lines = render_rows(&filtered);
                proof {
                    assert(lines@.map_values(|s: String| s@) =~= spec_filtered(
                        joined_rows(old(self)@),
                        ui.filter_text@,
                    ).map_values(|h: HouseWithKindView| render_house(h)));
                }
                let mut followups: Vec<Intent> = Vec::new();
                followups.push(Intent::Select);
                proof {
                    assert(followups@ =~= seq![Intent::Select]);
                }
                Effects {
                    status: None,
                    clear_form: false,
                    populate: None,
                    list: Some(lines),
                    followups,
                }
            },
            Intent::Select => {
                self.save_armed = true;
                match &ui.selected_text {
                    None => {
                        self.update_armed = false;
                        self.delete_armed = false;
                        no_effects()
                    },
                    Some(text) => {
                        let rows = self.listed_rows();
                        match resolve_selection(&rows, text.as_str()) {
                            Some(i) => {
                                let house = clone_row(&rows[i]);
                                self.update_armed = true;
                                self.delete_armed = true;
                                let mut m = String::from_str("Elemento #");
                                let ds = crate::text::i32_dec_string(house.id);
                                m.append(ds.as_str());
                                m.append(" seleccionado");
                                let followups: Vec<Intent> = Vec::new();
                                proof {
                                    assert(followups@ =~= Seq::<Intent>::empty());
                                    let rv = joined_rows(old(self)@);
                                    assert(house@ == rv[i as int]);
                                }
                                Effects {
                                    status: Some(m),
                                    clear_form: false,
                                    populate: Some(house),
                                    list: None,
                                    followups,
                                }
                            },
                            None => no_effects(),
                        }
                    },
                }
            },
            Intent::Save => {
                if !self.save_armed {
                    no_effects()
                } else {
                    let res = self.service.create_house(
                        ui.street.as_str(),
                        ui.street_number.as_str(),
                        ui.street_floor.as_str(),
                        ui.postal_code.as_str(),
                        ui.surface_square_meters.as_str(),
                        ui.bathrooms.as_str(),
                        ui.rooms.as_str(),
                        ui.kind_id,
                    );
                    match res {
                        Ok(_) => {
                            self.save_armed = false;
                            let mut followups: Vec<Intent> = Vec::new();
                            followups.push(Intent::Filter);
                            followups.push(Intent::Select);
                            proof {
                                assert(followups@ =~= seq![Intent::Filter, Intent::Select]);
                            }
                            Effects {
                                status: Some(String::from_str("Elemento nuevo guardado")),
                                clear_form: true,
                                populate: None,
                                list: None,
                                followups,
                            }
                        },
                        Err(_) => {
                            let followups: Vec<Intent> = Vec::new();
                            proof {
                                assert(followups@ =~= Seq::<Intent>::empty());
                            }
                            Effects {
                                status: Some(String::from_str("Error guardando el nuevo elemento")),
                                clear_form: false,
                                populate: None,
                                list: None,
                                followups,
                            }
                        },
                    }
                }
            },
            Intent::Update => {
                match &ui.selected_text {
                    None => no_effects(),
                    Some(text) => {
                        let rows = self.listed_rows();
                        match resolve_selection(&rows, text.as_str()) {
                            None => {
                                proof {
                                    let rv = joined_rows(old(self)@);
                                    assert(rows@.map_values(|h: HouseWithKind| h@) == rv);
                                    assert forall|k: int| 0 <= k < rv.len() implies
                                        !eq_ignore_case(
                                            render_house(#[trigger] rv[k]),
                                            text@,
                                        ) by {
                                        assert(rows@[k]@ == rv[k]);
                                    }
                                }
                                no_effects()
                            },
                            Some(sel) => {
                                proof {
                                    let rv = joined_rows(old(self)@);
                                    assert(rows@.map_values(|h: HouseWithKind| h@) == rv);
                                    assert(rows@[sel as int]@ == rv[sel as int]);
                                }
                                let res = self.service.update_house(
                                    ui.id_text.as_str(),
                                    ui.street.as_str(),
                                    ui.street_number.as_str(),
                                    ui.street_floor.as_str(),
                                    ui.postal_code.as_str(),
                                    ui.surface_square_meters.as_str(),
                                    ui.bathrooms.as_str(),
                                    ui.rooms.as_str(),
                                    ui.kind_id,
                                );
                                proof {
                                    let pre = old(self)@;
                                    let hs = pre.houses;
                                    // ids are unique (strictly sorted), so whichever index
                                    // the store picked for the parsed id is the only one.
                                    assert forall|a: int, b: int|
                                        0 <= a < hs.len() && 0 <= b < hs.len() && (
                                        #[trigger] hs[a]).id == (#[trigger] hs[b]).id implies a
                                        == b by {
                                        if a < b {
                                            assert(hs[a].id < hs[b].id);
                                        } else if b < a {
                                            assert(hs[b].id < hs[a].id);
                                        }
                                    }
                                }
                                proof {
                                    if id_parses(ui.id_text@) && fields_valid(
                                        old(self)@.kinds,
                                        ui,
                                    ) {
                                        let idv = spec_parse_nonneg(ui.id_text@).unwrap();
                                        let hv = view_normalized(old(self)@.kinds, idv, ui);
                                        if exists|k: int|
                                            0 <= k < old(self)@.houses.len() && (#[trigger] old(
                                                self,
                                            )@.houses[k]).id == idv {
                                            let k1 = choose|k: int|
                                                0 <= k < old(self)@.houses.len() && (
                                                #[trigger] old(self)@.houses[k]).id == idv;
                                            assert(self@.houses == old(self)@.houses.update(
                                                k1,
                                                hv,
                                            ));
                                        }
                                    }
                                }
                                let status: String = if res.is_err() {
                                    let mut m = String::from_str(
                                        "Error actualizando el elemento #",
                                    );
                                    m.append(ui.id_text.as_str());
                                    m
                                } else {
                                    let mut m = String::from_str("Elemento #");
                                    m.append(ui.id_text.as_str());
                                    m.append(" actualizado");
                                    m
                                };
                                let mut followups: Vec<Intent> = Vec::new();
                                followups.push(Intent::Filter);
                                followups.push(Intent::Select);
                                proof {
                                    assert(followups@ =~= seq![Intent::Filter, Intent::Select]);
                                }
                                Effects {
                                    status: Some(status),
                                    clear_form: true,
                                    populate: None,
                                    list: None,
                                    followups,
                                }
                            },
                        }
                    },
                }
            },
            Intent::Delete => {
                self.save_armed = false;
                match &ui.selected_text {
                    None => no_effects(),
                    Some(text) => {
                        let rows = self.listed_rows();
                        match resolve_selection(&rows, text.as_str()) {
                            None => {
                                proof {
                                    let rv = joined_rows(old(self)@);
                                    assert(rows@.map_values(|h: HouseWithKind| h@) == rv);
                                    assert forall|k: int| 0 <= k < rv.len() implies
                                        !eq_ignore_case(
                                            render_house(#[trigger] rv[k]),
                                            text@,
                                        ) by {
                                        assert(rows@[k]@ == rv[k]);
                                    }
                                }
                                no_effects()
                            },
                            Some(i) => {
                                let ghost pre = old(self)@;
                                let ghost rv = joined_rows(pre);
                                proof {
                                    assert(rows@.map_values(|h: HouseWithKind| h@) == rv);
                                    assert(rv.len() == pre.houses.len());
                                    assert(rows@[i as int]@ == rv[i as int]);
                                    assert(rv[i as int] == pre.houses[i as int].joined(
                                        crate::repository::kind_name(
                                            pre.kinds,
                                            pre.houses[i as int].kind_id,
                                        ),
                                    ));
                                    assert(pre.houses[i as int].id == rows@[i as int]@.id);
                                }
                                let res = self.service.delete_house(rows[i].id);
                                proof {
                                    let hs = pre.houses;
                                    // ids are unique: the rows stand strictly sorted by id,
                                    // so the one the store removed is the resolved one.
                                    assert forall|j: int|
                                        0 <= j < hs.len() && (#[trigger] hs[j]).id == rows@[
                                            i as int]@.id implies j == i as int by {
                                        if j < i as int {
                                            assert(hs[j].id < hs[i as int].id);
                                        } else if j > i as int {
                                            assert(hs[i as int].id < hs[j].id);
                                        }
                                    }
                                    assert(self@.houses == hs.remove(i as int));
                                }
                                if res.is_ok() {
                                    let mut m = String::from_str("Elemento #");
                                    m.append(ui.id_text.as_str());
                                    m.append(" eliminado");
                                    let mut followups: Vec<Intent> = Vec::new();
                                    followups.push(Intent::Filter);
                                    followups.push(Intent::Select);
                                    proof {
                                        assert(followups@ =~= seq![
                                            Intent::Filter,
                                            Intent::Select,
                                        ]);
                                    }
                                    Effects {
                                        status: Some(m),
                                        clear_form: true,
                                        populate: None,
                                        list: None,
                                        followups,
                                    }
                                } else {
                                    let mut m = String::from_str("Error eliminando el elemento ");
                                    m.append(ui.id_text.as_str());
                                    let followups: Vec<Intent> = Vec::new();
                                    proof {
                                        assert(followups@ =~= Seq::<Intent>::empty());
                                    }
                                    Effects {
                                        status: Some(m),
                                        clear_form: false,
                                        populate: None,
                                        list: None,
                                        followups,
                                    }
                                }
                            },
                        }
                    },
                }
            },
        }
    }
}

} // verus!
