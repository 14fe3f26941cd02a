//! The guarantees the extractor gives its sink, stated over the
//! specification model and proved once for every input.

use vstd::prelude::*;

use crate::events::{ErrorModel, EventModel};
use crate::machine::{
    step, step_end, step_start, Nesting, ProductField, SaleField, StateModel, StepModel,
};
use crate::records::{product_init, sale_init, ProductModel, RecModel, SaleModel};
use crate::runner::{emitted, run_model};

verus! {

/// The closing-tag kind a delivered record answers to.
pub open spec fn rec_kind(r: RecModel) -> Seq<char> {
    match r {
        RecModel::Product(_) => "product"@,
        RecModel::Sale(_) => "sale"@,
    }
}

/// The kinds of a sequence of delivered records.
pub open spec fn kinds_of(rs: Seq<RecModel>) -> Seq<Seq<char>> {
    rs.map_values(|r: RecModel| rec_kind(r))
}

/// The names of the record closing tags of `evs`, in document order.
pub open spec fn close_kinds(evs: Seq<EventModel>) -> Seq<Seq<char>>
    decreases evs.len(),
{
    if evs.len() == 0 {
        Seq::empty()
    } else {
        let head: Seq<Seq<char>> = match evs[0] {
            EventModel::End(n) => if n == "product"@ || n == "sale"@ {
                seq![n]
            } else {
                Seq::empty()
            },
            _ => Seq::empty(),
        };
        head + close_kinds(evs.drop_first())
    }
}

/// `a` can be obtained from `b` by deleting elements, keeping the order.
pub open spec fn subsequence_of<A>(a: Seq<A>, b: Seq<A>) -> bool
    decreases b.len(),
{
    if a.len() == 0 {
        true
    } else if b.len() == 0 {
        false
    } else {
        (a[0] == b[0] && subsequence_of(a.drop_first(), b.drop_first())) || subsequence_of(
            a,
            b.drop_first(),
        )
    }
}

proof fn lemma_subseq_cons<A>(x: A, a: Seq<A>, b: Seq<A>)
    requires
        subsequence_of(a, b),
    ensures
        subsequence_of(seq![x] + a, seq![x] + b),
{
    let aa = seq![x] + a;
    let bb = seq![x] + b;
    assert(aa.drop_first() =~= a);
    assert(bb.drop_first() =~= b);
    assert(aa[0] == bb[0]);
}

proof fn lemma_subseq_skip<A>(x: A, a: Seq<A>, b: Seq<A>)
    requires
        subsequence_of(a, b),
    ensures
        subsequence_of(a, seq![x] + b),
{
    let bb = seq![x] + b;
    assert(bb.drop_first() =~= b);
}

/// A step delivers a record only at a record closing tag, of the record
/// kind that tag names, and returns to top level doing so.
pub proof fn lemma_emission_needs_close(
    s: StateModel,
    ev: EventModel,
    s2: StateModel,
    r: RecModel,
)
    requires
        step(s, ev) == StepModel::Next(s2, Some(r)),
    ensures
        ev matches EventModel::End(n) && n == rec_kind(r) && (n == "product"@ || n == "sale"@),
        s2.nesting is Top,
{
}

/// Ordering: over any input, the kinds of the delivered records form a
/// subsequence of the record closing tags of the input, in document
/// order — one delivery per closing tag, never reordered, never invented.
pub proof fn lemma_delivery_order(s: StateModel, evs: Seq<EventModel>)
    ensures
        subsequence_of(kinds_of(run_model(s, evs).0), close_kinds(evs)),
    decreases evs.len(),
{
    let outs = run_model(s, evs).0;
    if evs.len() == 0 {
        assert(kinds_of(outs) =~= Seq::<Seq<char>>::empty());
    } else {
        let ev = evs[0];
        match step(s, ev) {
            StepModel::Stop(_) => {
                assert(kinds_of(outs) =~= Seq::<Seq<char>>::empty());
            },
            StepModel::Next(s2, emit) => {
                lemma_delivery_order(s2, evs.drop_first());
                let rest = run_model(s2, evs.drop_first());
                match emit {
                    Some(r) => {
                        lemma_emission_needs_close(s, ev, s2, r);
                        let n = rec_kind(r);
                        assert(close_kinds(evs) == seq![n] + close_kinds(evs.drop_first()));
                        assert(kinds_of(outs) =~= seq![n] + kinds_of(rest.0));
                        lemma_subseq_cons(n, kinds_of(rest.0), close_kinds(evs.drop_first()));
                    },
                    None => {
                        assert(kinds_of(outs) =~= kinds_of(rest.0));
                        match ev {
                            EventModel::End(n) => {
                                if n == "product"@ || n == "sale"@ {
                                    assert(close_kinds(evs) == seq![n] + close_kinds(
                                        evs.drop_first(),
                                    ));
                                    lemma_subseq_skip(
                                        n,
                                        kinds_of(rest.0),
                                        close_kinds(evs.drop_first()),
                                    );
                                } else {
                                    assert(close_kinds(evs) =~= close_kinds(evs.drop_first()));
                                }
                            },
                            _ => {
                                assert(close_kinds(evs) =~= close_kinds(evs.drop_first()));
                            },
                        }
                    },
                }
            },
        }
    }
}

/// Completeness: with no field open, the closing tag of the record that
/// is open always delivers that record — exactly one callback, carrying
/// the scratch record, with the controller back at top level.
pub proof fn lemma_close_delivers(s: StateModel, n: Seq<char>)
    ensures
        s.nesting == Nesting::InProduct(ProductField::NoField) && n == "product"@ ==> step_end(
            s,
            n,
        ) == StepModel::Next(
            StateModel { nesting: Nesting::Top, ..s },
            Some(RecModel::Product(s.product)),
        ),
        s.nesting == Nesting::InSale(SaleField::NoField) && n == "sale"@ ==> step_end(s, n)
            == StepModel::Next(
            StateModel { nesting: Nesting::Top, ..s },
            Some(RecModel::Sale(s.sale)),
        ),
{
}

/// Completeness in a run: when the run reaches a record's closing tag
/// with no field open, the very next delivered record of the run is that
/// record — the close is never skipped and never doubled.
pub proof fn lemma_close_delivers_in_run(s: StateModel, evs: Seq<EventModel>)
    requires
        evs.len() > 0,
    ensures
        s.nesting == Nesting::InProduct(ProductField::NoField) && evs[0] == EventModel::End(
            "product"@,
        ) ==> run_model(s, evs).0.len() >= 1 && run_model(s, evs).0[0] == RecModel::Product(
            s.product,
        ),
        s.nesting == Nesting::InSale(SaleField::NoField) && evs[0] == EventModel::End("sale"@)
            ==> run_model(s, evs).0.len() >= 1 && run_model(s, evs).0[0] == RecModel::Sale(s.sale),
{
}

/// Isolation: a delivered product is the scratch product of a controller
/// that stood inside a product, and likewise for a sale — a callback of
/// one kind can never carry the other kind's data.
pub proof fn lemma_isolation(s: StateModel, ev: EventModel, s2: StateModel, r: RecModel)
    requires
        step(s, ev) == StepModel::Next(s2, Some(r)),
    ensures
        r matches RecModel::Product(p) ==> s.nesting == Nesting::InProduct(ProductField::NoField)
            && p == s.product,
        r matches RecModel::Sale(sa) ==> s.nesting == Nesting::InSale(SaleField::NoField) && sa
            == s.sale,
{
}

/// No partial emission: a step that fails delivers nothing, and the run
/// ends there with that error — no callback is ever made for the record
/// whose processing failed.
pub proof fn lemma_no_partial_emission(s: StateModel, evs: Seq<EventModel>, e: ErrorModel)
    requires
        evs.len() > 0,
        step(s, evs[0]) == StepModel::Stop(e),
    ensures
        run_model(s, evs).0 == Seq::<RecModel>::empty(),
        run_model(s, evs).1 == Some(e),
{
}

/// Reset on record opening: at top level, the opening tag of a record
/// element leaves the scratch instance of that kind with every field at
/// its type's default, and no text accumulated, before any character
/// data is decoded.
pub proof fn lemma_reset_on_open(s: StateModel)
    requires
        s.nesting is Top,
    ensures
        step_start(s, "product"@) == (StateModel {
            nesting: Nesting::InProduct(ProductField::NoField),
            product: product_init(),
            text: Seq::empty(),
            ..s
        }),
        step_start(s, "sale"@) == (StateModel {
            nesting: Nesting::InSale(SaleField::NoField),
            sale: sale_init(),
            text: Seq::empty(),
            ..s
        }),
{
    reveal_strlit("product");
    reveal_strlit("sale");
    assert("product"@.len() == 7);
    assert("sale"@.len() == 4);
}

/// The element name that opens a product field.
pub open spec fn product_tag(f: ProductField) -> Seq<char> {
    match f {
        ProductField::NoField => Seq::empty(),
        ProductField::Id => "id"@,
        ProductField::Category => "category"@,
        ProductField::Name => "name"@,
    }
}

/// The element name that opens a sale field.
pub open spec fn sale_tag(f: SaleField) -> Seq<char> {
    match f {
        SaleField::NoField => Seq::empty(),
        SaleField::Id => "id"@,
        SaleField::ProductId => "product-id"@,
        SaleField::Date => "date"@,
        SaleField::Quantity => "quantity"@,
        SaleField::Unit => "unit"@,
    }
}

/// Field `f` of this product holds its type's default.
pub open spec fn product_slot_default(p: ProductModel, f: ProductField) -> bool {
    match f {
        ProductField::NoField => true,
        ProductField::Id => p.id == 0,
        ProductField::Category => p.category == Seq::<char>::empty(),
        ProductField::Name => p.name == Seq::<char>::empty(),
    }
}

/// Field `f` of this sale holds its type's default.
pub open spec fn sale_slot_default(sa: SaleModel, f: SaleField) -> bool {
    match f {
        SaleField::NoField => true,
        SaleField::Id => sa.id == Seq::<char>::empty(),
        SaleField::ProductId => sa.product_id == 0,
        SaleField::Date => sa.date == 0,
        SaleField::Quantity => sa.quantity == "0"@,
        SaleField::Unit => sa.unit == Seq::<char>::empty(),
    }
}

/// `ev` is the opening tag named `tag`.
pub open spec fn opens(ev: EventModel, tag: Seq<char>) -> bool {
    ev matches EventModel::Start(n) && n == tag
}

/// No event of `evs` is the opening tag named `tag`.
pub open spec fn no_opener(evs: Seq<EventModel>, tag: Seq<char>) -> bool {
    forall|i: int| 0 <= i < evs.len() ==> !opens(#[trigger] evs[i], tag)
}

/// If this record is a product, its field `f` holds the default.
pub open spec fn product_default_at(r: RecModel, f: ProductField) -> bool {
    r matches RecModel::Product(p) ==> product_slot_default(p, f)
}

/// If this record is a sale, its field `f` holds the default.
pub open spec fn sale_default_at(r: RecModel, f: SaleField) -> bool {
    r matches RecModel::Sale(sa) ==> sale_slot_default(sa, f)
}

/// If a product is open, its slot for `f` is still default and `f` is
/// not the open field.
pub open spec fn product_guard(s: StateModel, f: ProductField) -> bool {
    s.nesting matches Nesting::InProduct(g) ==> product_slot_default(s.product, f) && g != f
}

/// If a sale is open, its slot for `f` is still default and `f` is not
/// the open field.
pub open spec fn sale_guard(s: StateModel, f: SaleField) -> bool {
    s.nesting matches Nesting::InSale(g) ==> sale_slot_default(s.sale, f) && g != f
}

/// Field defaulting, products: over any input with no opening tag for
/// product field `f`, every delivered product carries the default in
/// field `f`.
pub proof fn lemma_product_field_defaulting(s: StateModel, evs: Seq<EventModel>, f: ProductField)
    requires
        !(f is NoField),
        no_opener(evs, product_tag(f)),
        product_guard(s, f),
    ensures
        forall|k: int|
            0 <= k < run_model(s, evs).0.len() ==> product_default_at(
                #[trigger] run_model(s, evs).0[k],
                f,
            ),
    decreases evs.len(),
{
    let outs = run_model(s, evs).0;
    if evs.len() > 0 {
        let ev = evs[0];
        assert(!opens(ev, product_tag(f)));
        match step(s, ev) {
            StepModel::Stop(_) => {},
            StepModel::Next(s2, emit) => {
                assert(product_guard(s2, f));
                assert(no_opener(evs.drop_first(), product_tag(f))) by {
                    assert forall|i: int| 0 <= i < evs.drop_first().len() implies !opens(
                        #[trigger] evs.drop_first()[i],
                        product_tag(f),
                    ) by {
                        assert(evs.drop_first()[i] == evs[i + 1]);
                    }
                }
                lemma_product_field_defaulting(s2, evs.drop_first(), f);
                let rest = run_model(s2, evs.drop_first());
                assert forall|k: int| 0 <= k < outs.len() implies product_default_at(
                    #[trigger] outs[k],
                    f,
                ) by {
                    let off = emitted(emit).len() as int;
                    if k < off {
                        assert(outs[k] == emitted(emit)[k]);
                    } else {
                        assert(outs[k] == rest.0[k - off]);
                    }
                }
            },
        }
    }
}

/// Field defaulting, sales: over any input with no opening tag for sale
/// field `f`, every delivered sale carries the default in field `f`.
pub proof fn lemma_sale_field_defaulting(s: StateModel, evs: Seq<EventModel>, f: SaleField)
    requires
        !(f is NoField),
        no_opener(evs, sale_tag(f)),
        sale_guard(s, f),
    ensures
        forall|k: int|
            0 <= k < run_model(s, evs).0.len() ==> sale_default_at(
                #[trigger] run_model(s, evs).0[k],
                f,
            ),
    decreases evs.len(),
{
    let outs = run_model(s, evs).0;
    if evs.len() > 0 {
        let ev = evs[0];
        assert(!opens(ev, sale_tag(f)));
        match step(s, ev) {
            StepModel::Stop(_) => {},
            StepModel::Next(s2, emit) => {
                assert(sale_guard(s2, f));
                assert(no_opener(evs.drop_first(), sale_tag(f))) by {
                    assert forall|i: int| 0 <= i < evs.drop_first().len() implies !opens(
                        #[trigger] evs.drop_first()[i],
                        sale_tag(f),
                    ) by {
                        assert(evs.drop_first()[i] == evs[i + 1]);
                    }
                }
                lemma_sale_field_defaulting(s2, evs.drop_first(), f);
                let rest = run_model(s2, evs.drop_first());
                assert forall|k: int| 0 <= k < outs.len() implies sale_default_at(
                    #[trigger] outs[k],
                    f,
                ) by {
                    let off = emitted(emit).len() as int;
                    if k < off {
                        assert(outs[k] == emitted(emit)[k]);
                    } else {
                        assert(outs[k] == rest.0[k - off]);
                    }
                }
            },
        }
    }
}

} // verus!
