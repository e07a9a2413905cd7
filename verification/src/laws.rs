//! The stated properties of the transform, proved from the contracts in
//! the other modules: a module without markers is left untouched, a
//! marker with a literal identifier and no children registers with a
//! null default, the synthesized block has exactly one import and one
//! call per record in encounter order with every original item behind
//! it, directives keep the front, and transformed output is a fixed
//! point.
use vstd::prelude::*;
use crate::ast::{AttrOrSpread, AttrValue, Child, Container, Element, Expr, Item, Lit, Span};
use crate::diag::Diagnostic;
use crate::extract::{
    NodeV, find_uri_value, meaningful_of, spec_extract, spec_extract_diags, spec_is_marker,
};
use crate::rewrite::{ItemV, calls_vw, directive_len, is_directive_item, items_vw};
use crate::scan::{
    scan_attr, scan_attr_value, scan_attrs, scan_child, scan_children, scan_container, scan_element,
    scan_expr, scan_exprs, scan_item, scan_items,
};

verus! {

proof fn nm_element(e: Element)
    ensures
        scan_element(e).markers == 0 ==> scan_element(e).records == Seq::<NodeV>::empty()
            && scan_element(e).diags == Seq::<Diagnostic>::empty(),
    decreases e,
{
    nm_attrs(e.attrs@);
    nm_children(e.children@);
    if scan_element(e).markers == 0 {
        assert(!spec_is_marker(e));
        assert(scan_element(e).records =~= Seq::<NodeV>::empty());
        assert(scan_element(e).diags =~= Seq::<Diagnostic>::empty());
    }
}

proof fn nm_attrs(s: Seq<AttrOrSpread>)
    ensures
        scan_attrs(s).markers == 0 ==> scan_attrs(s).records == Seq::<NodeV>::empty()
            && scan_attrs(s).diags == Seq::<Diagnostic>::empty(),
    decreases s,
{
    if s.len() > 0 {
        nm_attrs(s.subrange(0, s.len() - 1));
        nm_attr(s[s.len() - 1]);
        if scan_attrs(s).markers == 0 {
            assert(scan_attrs(s).records =~= Seq::<NodeV>::empty());
            assert(scan_attrs(s).diags =~= Seq::<Diagnostic>::empty());
        }
    }
}

proof fn nm_attr(a: AttrOrSpread)
    ensures
        scan_attr(a).markers == 0 ==> scan_attr(a).records == Seq::<NodeV>::empty()
            && scan_attr(a).diags == Seq::<Diagnostic>::empty(),
    decreases a,
{
    match a {
        AttrOrSpread::Attr(at) => match at.value {
            Some(v) => nm_attr_value(v),
            None => {},
        },
        AttrOrSpread::Spread(e) => nm_expr(e),
    }
}

proof fn nm_attr_value(v: AttrValue)
    ensures
        scan_attr_value(v).markers == 0 ==> scan_attr_value(v).records == Seq::<NodeV>::empty()
            && scan_attr_value(v).diags == Seq::<Diagnostic>::empty(),
    decreases v,
{
    match v {
        AttrValue::Lit(_) => {},
        AttrValue::Container(c) => nm_container(c),
        AttrValue::Element(el) => nm_element(*el),
        AttrValue::Fragment { children, .. } => nm_children(children@),
    }
}

proof fn nm_container(c: Container)
    ensures
        scan_container(c).markers == 0 ==> scan_container(c).records == Seq::<NodeV>::empty()
            && scan_container(c).diags == Seq::<Diagnostic>::empty(),
    decreases c,
{
    match c.expr {
        Some(e) => nm_expr(*e),
        None => {},
    }
}

proof fn nm_children(s: Seq<Child>)
    ensures
        scan_children(s).markers == 0 ==> scan_children(s).records == Seq::<NodeV>::empty()
            && scan_children(s).diags == Seq::<Diagnostic>::empty(),
    decreases s,
{
    if s.len() > 0 {
        nm_children(s.subrange(0, s.len() - 1));
        nm_child(s[s.len() - 1]);
        if scan_children(s).markers == 0 {
            assert(scan_children(s).records =~= Seq::<NodeV>::empty());
            assert(scan_children(s).diags =~= Seq::<Diagnostic>::empty());
        }
    }
}

proof fn nm_child(c: Child)
    ensures
        scan_child(c).markers == 0 ==> scan_child(c).records == Seq::<NodeV>::empty()
            && scan_child(c).diags == Seq::<Diagnostic>::empty(),
    decreases c,
{
    match c {
        Child::Text { .. } => {},
        Child::Container(ct) => nm_container(ct),
        Child::Element(el) => nm_element(*el),
        Child::Fragment { children, .. } => nm_children(children@),
        Child::Spread { expr, .. } => nm_expr(expr),
    }
}

proof fn nm_expr(e: Expr)
    ensures
        scan_expr(e).markers == 0 ==> scan_expr(e).records == Seq::<NodeV>::empty()
            && scan_expr(e).diags == Seq::<Diagnostic>::empty(),
    decreases e,
{
    match e {
        Expr::Lit(_) => {},
        Expr::Ident(_) => {},
        Expr::Tpl(t) => nm_exprs(t.exprs@),
        Expr::TaggedTpl { tag, tpl } => {
            nm_expr(*tag);
            nm_exprs(tpl.exprs@);
            if scan_expr(e).markers == 0 {
                assert(scan_expr(e).records =~= Seq::<NodeV>::empty());
                assert(scan_expr(e).diags =~= Seq::<Diagnostic>::empty());
            }
        },
        Expr::Jsx(el) => nm_element(*el),
        Expr::Other(es) => nm_exprs(es@),
    }
}

proof fn nm_exprs(s: Seq<Expr>)
    ensures
        scan_exprs(s).markers == 0 ==> scan_exprs(s).records == Seq::<NodeV>::empty()
            && scan_exprs(s).diags == Seq::<Diagnostic>::empty(),
    decreases s,
{
    if s.len() > 0 {
        nm_exprs(s.subrange(0, s.len() - 1));
        nm_expr(s[s.len() - 1]);
        if scan_exprs(s).markers == 0 {
            assert(scan_exprs(s).records =~= Seq::<NodeV>::empty());
            assert(scan_exprs(s).diags =~= Seq::<Diagnostic>::empty());
        }
    }
}

proof fn nm_item(it: Item)
    ensures
        scan_item(it).markers == 0 ==> scan_item(it).records == Seq::<NodeV>::empty()
            && scan_item(it).diags == Seq::<Diagnostic>::empty(),
{
    match it {
        Item::Import { .. } => {},
        Item::ReportCall { .. } => {},
        Item::Stmt(e) => nm_expr(e),
        Item::Other(es) => nm_exprs(es@),
    }
}

/// A module's item list that contains zero marker elements yields no
/// records and no diagnostics; by `process_transform`'s contract the
/// module is then returned unchanged, with no import inserted.
pub proof fn lemma_zero_markers_unchanged(items: Seq<Item>)
    requires
        scan_items(items).markers == 0,
    ensures
        scan_items(items).records == Seq::<NodeV>::empty(),
        scan_items(items).diags == Seq::<Diagnostic>::empty(),
    decreases items.len(),
{
    if items.len() > 0 {
        lemma_zero_markers_unchanged(items.subrange(0, items.len() - 1));
        nm_item(items[items.len() - 1]);
        assert(scan_items(items).records =~= Seq::<NodeV>::empty());
        assert(scan_items(items).diags =~= Seq::<Diagnostic>::empty());
    }
}

/// Scanning an item list distributes over concatenation: records,
/// diagnostics and marker counts of the two halves follow each other.
pub proof fn lemma_scan_items_cat(a: Seq<Item>, b: Seq<Item>)
    ensures
        scan_items(a + b).records == scan_items(a).records + scan_items(b).records,
        scan_items(a + b).diags == scan_items(a).diags + scan_items(b).diags,
        scan_items(a + b).markers == scan_items(a).markers + scan_items(b).markers,
    decreases b.len(),
{
    if b.len() == 0 {
        assert(a + b =~= a);
        assert(scan_items(a).records =~= scan_items(a).records + scan_items(b).records);
        assert(scan_items(a).diags =~= scan_items(a).diags + scan_items(b).diags);
    } else {
        let b0 = b.subrange(0, b.len() - 1);
        lemma_scan_items_cat(a, b0);
        assert((a + b).subrange(0, (a + b).len() - 1) =~= a + b0);
        assert((a + b)[(a + b).len() - 1] == b[b.len() - 1]);
        assert(scan_items(a + b).records =~= scan_items(a).records + scan_items(b).records);
        assert(scan_items(a + b).diags =~= scan_items(a).diags + scan_items(b).diags);
    }
}

/// A marker element whose `uri` attribute value is a string literal and
/// which has no children yields exactly one record — that literal, with
/// no default value (the call will carry a null) — and no diagnostics.
pub proof fn lemma_literal_uri_no_children(e: Element, sp: Span, u: Vec<char>)
    requires
        spec_is_marker(e),
        find_uri_value(e.attrs@) == Some(AttrValue::Lit(Lit::Str { span: sp, value: u })),
        e.children@.len() == 0,
    ensures
        spec_extract(e) == Some(NodeV { uri: u@, value: None::<Seq<char>> }),
        spec_extract_diags(e) == Seq::<Diagnostic>::empty(),
{
    assert(meaningful_of(e.children@).len() == 0);
    assert(spec_extract_diags(e) =~= Seq::<Diagnostic>::empty());
}

/// The directive prologue never reaches past the end of the list, and
/// everything inside it is a directive.
pub proof fn lemma_directive_prologue(s: Seq<Item>)
    ensures
        directive_len(s) <= s.len(),
        forall|j: int| 0 <= j < directive_len(s) ==> is_directive_item(#[trigger] s[j]),
    decreases s.len(),
{
    if s.len() > 0 && is_directive_item(s[0]) {
        let t = s.subrange(1, s.len() as int);
        lemma_directive_prologue(t);
        assert(forall|j: int| 1 <= j < directive_len(s) ==> s[j] == t[j - 1]);
    }
}

/// The shape of a transformed module with at least one record: the
/// directive prologue keeps its leading positions, directly after it
/// stands exactly one import, then one registration call per record in
/// encounter order, and then every originally-present item, in original
/// relative order.
pub proof fn lemma_rewrite_shape(items: Seq<Item>, local: Seq<char>, out: Seq<ItemV>)
    requires
        scan_items(items).records.len() > 0,
        out == items_vw(items).subrange(0, directive_len(items) as int) + seq![
            ItemV::Import { local },
        ] + calls_vw(scan_items(items).records, local) + items_vw(items).subrange(
            directive_len(items) as int,
            items.len() as int,
        ),
    ensures
        out.len() == items.len() + 1 + scan_items(items).records.len(),
        out[directive_len(items) as int] == (ItemV::Import { local }),
        forall|i: int| 0 <= i < scan_items(items).records.len()
            ==> out[directive_len(items) + 1 + i] == (ItemV::ReportCall {
            local,
            uri: scan_items(items).records[i].uri,
            value: scan_items(items).records[i].value,
        }),
        forall|j: int| 0 <= j < directive_len(items) ==> out[j] == items_vw(items)[j]
            && is_directive_item(#[trigger] items[j]),
        forall|j: int| directive_len(items) <= j < items.len()
            ==> out[j + 1 + scan_items(items).records.len()] == items_vw(items)[j],
{
    lemma_directive_prologue(items);
    let p = directive_len(items) as int;
    let n = scan_items(items).records.len() as int;
    assert(items_vw(items).len() == items.len());
    assert(calls_vw(scan_items(items).records, local).len() == n);
    assert forall|i: int| 0 <= i < n implies out[p + 1 + i] == (ItemV::ReportCall {
        local,
        uri: scan_items(items).records[i].uri,
        value: scan_items(items).records[i].value,
    }) by {
        assert(calls_vw(scan_items(items).records, local)[i] == (ItemV::ReportCall {
            local,
            uri: scan_items(items).records[i].uri,
            value: scan_items(items).records[i].value,
        }));
    }
}

/// Already-transformed output is a fixed point: a block of synthesized
/// items (the import and the registration calls contain no elements)
/// followed by marker-free items contains zero markers, so the
/// transform leaves such a module unchanged and reports nothing.
pub proof fn lemma_idempotent(blk: Seq<Item>, tail: Seq<Item>)
    requires
        forall|i: int| 0 <= i < blk.len() ==> (#[trigger] blk[i]) is Import || blk[i] is ReportCall,
        scan_items(tail).markers == 0,
    ensures
        scan_items(blk + tail).markers == 0,
        scan_items(blk + tail).records == Seq::<NodeV>::empty(),
        scan_items(blk + tail).diags == Seq::<Diagnostic>::empty(),
{
    lemma_synth_block_no_markers(blk);
    lemma_scan_items_cat(blk, tail);
    lemma_zero_markers_unchanged(blk + tail);
}

proof fn lemma_synth_block_no_markers(blk: Seq<Item>)
    requires
        forall|i: int| 0 <= i < blk.len() ==> (#[trigger] blk[i]) is Import || blk[i] is ReportCall,
    ensures
        scan_items(blk).markers == 0,
    decreases blk.len(),
{
    if blk.len() > 0 {
        lemma_synth_block_no_markers(blk.subrange(0, blk.len() - 1));
    }
}

} // verus!
