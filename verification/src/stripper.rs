//! The marker-stripping pass.
//!
//! Handlers may carry the marker attribute `#[remaining_accounts]` purely as
//! a compile-time signal. Before the module tree is retained for re-emission,
//! the pass removes every attribute that is exactly that bare marker from
//! every top-level function item. All other attributes — including a
//! parenthesized or valued attribute of the same name, and any attribute
//! whose tokens do not parse as a bare path — are conservatively kept.

use crate::ast::{AttrMeta, Attribute, Item, ItemFn, ProgramModule};
use vstd::prelude::*;

verus! {

/// The marker's name.
pub open spec fn marker_name() -> Seq<char> {
    "remaining_accounts"@
}

/// Whether an attribute is exactly the bare marker: a path with no arguments
/// and no value, no leading `::`, and the single segment `remaining_accounts`.
pub open spec fn is_marker(attr: Attribute) -> bool {
    &&& attr.meta matches AttrMeta::Path(p)
    &&& !p.leading_colon
    &&& p.segments@.len() == 1
    &&& p.segments@[0]@ == marker_name()
}

/// An attribute list after the pass: the same attributes in the same order,
/// with every bare marker removed.
pub open spec fn strip_attrs_spec(attrs: Seq<Attribute>) -> Seq<Attribute>
    decreases attrs.len(),
{
    if attrs.len() == 0 {
        Seq::empty()
    } else {
        let rest = strip_attrs_spec(attrs.drop_last());
        if is_marker(attrs.last()) {
            rest
        } else {
            rest.push(attrs.last())
        }
    }
}

/// How the pass rewrites one top-level item: a function item keeps its name,
/// parameters and span and has its attribute list stripped; every other item
/// is left exactly as it was.
pub open spec fn item_stripped(before: Item, after: Item) -> bool {
    match before {
        Item::Fn(f) => after matches Item::Fn(g) && g.attrs@ == strip_attrs_spec(f.attrs@)
            && g.ident == f.ident && g.params == f.params && g.span == f.span,
        Item::Other(_) => after == before,
    }
}

/// How the pass rewrites the whole module: identifier, module attributes and
/// span stay untouched, and each item is rewritten in place as
/// `item_stripped` says.
pub open spec fn module_stripped(before: ProgramModule, after: ProgramModule) -> bool {
    &&& after.ident == before.ident
    &&& after.attrs == before.attrs
    &&& after.span == before.span
    &&& after.items@.len() == before.items@.len()
    &&& forall|i: int|
        0 <= i < before.items@.len() ==> item_stripped(
            before.items@[i],
            #[trigger] after.items@[i],
        )
}

/// Decides whether one attribute is the bare marker.
pub fn is_marker_attr(attr: &Attribute) -> (r: bool)
    ensures
        r == is_marker(*attr),
{
    match &attr.meta {
        AttrMeta::Path(p) => {
            if p.leading_colon {
                false
            } else if p.segments.len() != 1 {
                false
            } else {
                let marker: String = "remaining_accounts".to_owned();
                let seg: &String = &p.segments[0];
                seg.eq(&marker)
            }
        },
        _ => false,
    }
}

/// Removes every bare marker from one attribute list, keeping everything
/// else in order.
fn strip_attrs(attrs: Vec<Attribute>) -> (r: Vec<Attribute>)
    ensures
        r@ == strip_attrs_spec(attrs@),
{
    let ghost orig = attrs@;
    let mut rest = attrs;
    let mut out: Vec<Attribute> = Vec::new();
    let ghost mut k: int = 0;
    proof {
        assert(orig.skip(0) =~= orig);
        assert(orig.take(0) =~= Seq::<Attribute>::empty());
    }
    while rest.len() > 0
        invariant
            0 <= k <= orig.len(),
            rest@ == orig.skip(k),
            out@ == strip_attrs_spec(orig.take(k)),
        decreases rest@.len(),
    {
        let attr = rest.remove(0);
        proof {
            assert(attr == orig.skip(k)[0]);
            assert(orig.skip(k)[0] == orig[k]);
            assert(rest@ =~= orig.skip(k + 1));
            assert(orig.take(k + 1).drop_last() =~= orig.take(k));
            assert(orig.take(k + 1).last() == orig[k]);
        }
        if is_marker_attr(&attr) {
            // dropped: it is exactly the bare marker
        } else {
            out.push(attr);
        }
        proof {
            k = k + 1;
        }
    }
    proof {
        assert(k == orig.len());
        assert(orig.take(k) =~= orig);
    }
    out
}

/// Rewrites one top-level item: strips a function item's attribute list and
/// returns every other item unchanged.
fn strip_item(item: Item) -> (r: Item)
    ensures
        item_stripped(item, r),
{
    match item {
        Item::Fn(f) => {
            let ItemFn { attrs, ident, params, span } = f;
            Item::Fn(ItemFn { attrs: strip_attrs(attrs), ident, params, span })
        },
        Item::Other(o) => Item::Other(o),
    }
}

/// Rewrites each item of the list in order.
fn strip_items(items: Vec<Item>) -> (r: Vec<Item>)
    ensures
        r@.len() == items@.len(),
        forall|i: int| 0 <= i < items@.len() ==> item_stripped(items@[i], #[trigger] r@[i]),
{
    let ghost orig = items@;
    let mut rest = items;
    let mut out: Vec<Item> = Vec::new();
    proof {
        assert(orig.skip(0) =~= orig);
    }
    while rest.len() > 0
        invariant
            out@.len() + rest@.len() == orig.len(),
            rest@ == orig.skip(out@.len() as int),
            forall|i: int| 0 <= i < out@.len() ==> item_stripped(orig[i], #[trigger] out@[i]),
        decreases rest@.len(),
    {
        let ghost k = out@.len() as int;
        let item = rest.remove(0);
        proof {
            assert(item == orig.skip(k)[0]);
            assert(orig.skip(k)[0] == orig[k]);
            assert(rest@ =~= orig.skip(k + 1));
        }
        out.push(strip_item(item));
    }
    out
}

/// Applies the marker-stripping pass to the module, in place. Only the
/// attribute lists of top-level function items are altered; this pass never
/// fails.
pub fn strip_module(module: &mut ProgramModule)
    ensures
        module_stripped(*old(module), *final(module)),
{
    let mut items: Vec<Item> = Vec::new();
    core::mem::swap(&mut items, &mut module.items);
    let stripped = strip_items(items);
    module.items = stripped;
}

/// The pass is exactly the filter that keeps the non-marker attributes in
/// their written order.
pub proof fn lemma_strip_attrs_is_filter(attrs: Seq<Attribute>)
    ensures
        strip_attrs_spec(attrs) == attrs.filter(|a: Attribute| !is_marker(a)),
    decreases attrs.len(),
{
    reveal(Seq::filter);
    if attrs.len() > 0 {
        lemma_strip_attrs_is_filter(attrs.drop_last());
    }
}

/// An attribute list that the pass has produced holds no marker.
proof fn lemma_stripped_attrs_have_no_marker(attrs: Seq<Attribute>)
    ensures
        forall|i: int|
            0 <= i < strip_attrs_spec(attrs).len() ==> !is_marker(#[trigger] strip_attrs_spec(attrs)[i]),
    decreases attrs.len(),
{
    if attrs.len() > 0 {
        lemma_stripped_attrs_have_no_marker(attrs.drop_last());
        let rest = strip_attrs_spec(attrs.drop_last());
        if !is_marker(attrs.last()) {
            assert(strip_attrs_spec(attrs) == rest.push(attrs.last()));
            assert forall|i: int| 0 <= i < strip_attrs_spec(attrs).len() implies !is_marker(
                #[trigger] strip_attrs_spec(attrs)[i],
            ) by {
                if i < rest.len() {
                    assert(strip_attrs_spec(attrs)[i] == rest[i]);
                } else {
                    assert(strip_attrs_spec(attrs)[i] == attrs.last());
                }
            }
        }
    }
}

/// On an attribute list without markers the pass keeps every attribute.
proof fn lemma_strip_keeps_markerless_attrs(attrs: Seq<Attribute>)
    requires
        forall|i: int| 0 <= i < attrs.len() ==> !is_marker(#[trigger] attrs[i]),
    ensures
        strip_attrs_spec(attrs) == attrs,
    decreases attrs.len(),
{
    if attrs.len() > 0 {
        assert(forall|i: int|
            0 <= i < attrs.drop_last().len() ==> !is_marker(#[trigger] attrs.drop_last()[i]));
        lemma_strip_keeps_markerless_attrs(attrs.drop_last());
        assert(strip_attrs_spec(attrs) =~= attrs.drop_last().push(attrs.last()));
        assert(attrs.drop_last().push(attrs.last()) =~= attrs);
    }
}

/// The pass is idempotent on one attribute list: stripping a second time
/// changes nothing.
pub proof fn lemma_strip_attrs_idempotent(attrs: Seq<Attribute>)
    ensures
        strip_attrs_spec(strip_attrs_spec(attrs)) == strip_attrs_spec(attrs),
{
    lemma_stripped_attrs_have_no_marker(attrs);
    lemma_strip_keeps_markerless_attrs(strip_attrs_spec(attrs));
}

/// The pass is idempotent on the whole module: a module it has rewritten is
/// a fixpoint, so a second application changes nothing.
pub proof fn lemma_strip_module_idempotent(before: ProgramModule, after: ProgramModule)
    requires
        module_stripped(before, after),
    ensures
        module_stripped(after, after),
{
    assert forall|i: int| 0 <= i < after.items@.len() implies item_stripped(
        after.items@[i],
        #[trigger] after.items@[i],
    ) by {
        assert(item_stripped(before.items@[i], after.items@[i]));
        match before.items@[i] {
            Item::Fn(f) => {
                lemma_strip_attrs_idempotent(f.attrs@);
            },
            Item::Other(_) => {},
        }
    }
}

} // verus!
