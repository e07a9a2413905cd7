//! The single depth-first traversal of a module: at every element it
//! attempts extraction, and it descends into attribute values, spread
//! expressions, children, template substitutions and every other
//! expression an item contains, in source order.
use vstd::prelude::*;
use crate::ast::{AttrOrSpread, AttrValue, Child, Container, Element, Expr, Item};
use crate::diag::Diagnostic;
use crate::extract::{
    Node, NodeV, recs_vw, spec_extract, spec_extract_diags, spec_is_marker, is_djedi_node,
};

verus! {

/// What one traversal yields: the records of the marker elements whose
/// identifier was statically known, the diagnostics, both in encounter
/// order, and the number of marker elements seen.
pub ghost struct ScanOut {
    pub records: Seq<NodeV>,
    pub diags: Seq<Diagnostic>,
    pub markers: nat,
}

/// The yield of a region with no markers.
pub open spec fn scan_empty() -> ScanOut {
    ScanOut { records: Seq::empty(), diags: Seq::empty(), markers: 0 }
}

/// The yield of two regions, one after the other.
pub open spec fn scan_cat(a: ScanOut, b: ScanOut) -> ScanOut {
    ScanOut {
        records: a.records + b.records,
        diags: a.diags + b.diags,
        markers: a.markers + b.markers,
    }
}

/// What the element itself yields, before its attributes and children
/// are descended into: its record and diagnostics when it is a marker,
/// nothing otherwise.
pub open spec fn marker_scan(e: Element) -> ScanOut {
    if spec_is_marker(e) {
        ScanOut {
            records: match spec_extract(e) {
                Some(n) => seq![n],
                None => Seq::empty(),
            },
            diags: spec_extract_diags(e),
            markers: 1,
        }
    } else {
        scan_empty()
    }
}

/// The yield of an element: itself, then its attribute list, then its
/// children.
pub open spec fn scan_element(e: Element) -> ScanOut
    decreases e,
{
    scan_cat(marker_scan(e), scan_cat(scan_attrs(e.attrs@), scan_children(e.children@)))
}

/// The yield of an attribute list, in order.
pub open spec fn scan_attrs(s: Seq<AttrOrSpread>) -> ScanOut
    decreases s,
{
    if s.len() == 0 {
        scan_empty()
    } else {
        scan_cat(scan_attrs(s.subrange(0, s.len() - 1)), scan_attr(s[s.len() - 1]))
    }
}

/// The yield of one attribute list entry.
pub open spec fn scan_attr(a: AttrOrSpread) -> ScanOut
    decreases a,
{
    match a {
        AttrOrSpread::Attr(at) => match at.value {
            Some(v) => scan_attr_value(v),
            None => scan_empty(),
        },
        AttrOrSpread::Spread(e) => scan_expr(e),
    }
}

/// The yield of an attribute value.
pub open spec fn scan_attr_value(v: AttrValue) -> ScanOut
    decreases v,
{
    match v {
        AttrValue::Lit(_) => scan_empty(),
        AttrValue::Container(c) => scan_container(c),
        AttrValue::Element(el) => scan_element(*el),
        AttrValue::Fragment { children, .. } => scan_children(children@),
    }
}

/// The yield of an expression container.
pub open spec fn scan_container(c: Container) -> ScanOut
    decreases c,
{
    match c.expr {
        Some(e) => scan_expr(*e),
        None => scan_empty(),
    }
}

/// The yield of a child list, in order.
pub open spec fn scan_children(s: Seq<Child>) -> ScanOut
    decreases s,
{
    if s.len() == 0 {
        scan_empty()
    } else {
        scan_cat(scan_children(s.subrange(0, s.len() - 1)), scan_child(s[s.len() - 1]))
    }
}

/// The yield of one child.
pub open spec fn scan_child(c: Child) -> ScanOut
    decreases c,
{
    match c {
        Child::Text { .. } => scan_empty(),
        Child::Container(ct) => scan_container(ct),
        Child::Element(el) => scan_element(*el),
        Child::Fragment { children, .. } => scan_children(children@),
        Child::Spread { expr, .. } => scan_expr(expr),
    }
}

/// The yield of an expression: elements can hide inside JSX
/// expressions, template substitutions, template tags, and any
/// contained expression.
pub open spec fn scan_expr(e: Expr) -> ScanOut
    decreases e,
{
    match e {
        Expr::Lit(_) => scan_empty(),
        Expr::Ident(_) => scan_empty(),
        Expr::Tpl(t) => scan_exprs(t.exprs@),
        Expr::TaggedTpl { tag, tpl } => scan_cat(scan_expr(*tag), scan_exprs(tpl.exprs@)),
        Expr::Jsx(el) => scan_element(*el),
        Expr::Other(es) => scan_exprs(es@),
    }
}

/// The yield of an expression list, in order.
pub open spec fn scan_exprs(s: Seq<Expr>) -> ScanOut
    decreases s,
{
    if s.len() == 0 {
        scan_empty()
    } else {
        scan_cat(scan_exprs(s.subrange(0, s.len() - 1)), scan_expr(s[s.len() - 1]))
    }
}

/// The yield of one module item. The synthesized shapes contain no
/// elements, so they yield nothing.
pub open spec fn scan_item(it: Item) -> ScanOut {
    match it {
        Item::Import { .. } => scan_empty(),
        Item::ReportCall { .. } => scan_empty(),
        Item::Stmt(e) => scan_expr(e),
        Item::Other(es) => scan_exprs(es@),
    }
}

/// The yield of a whole module's item list, in order.
pub open spec fn scan_items(s: Seq<Item>) -> ScanOut
    decreases s.len(),
{
    if s.len() == 0 {
        scan_empty()
    } else {
        scan_cat(scan_items(s.subrange(0, s.len() - 1)), scan_item(s[s.len() - 1]))
    }
}

proof fn lemma_scan_exprs_step(s: Seq<Expr>, i: int)
    requires
        0 <= i < s.len(),
    ensures
        scan_exprs(s.subrange(0, i + 1)).records == scan_exprs(s.subrange(0, i)).records
            + scan_expr(s[i]).records,
        scan_exprs(s.subrange(0, i + 1)).diags == scan_exprs(s.subrange(0, i)).diags
            + scan_expr(s[i]).diags,
{
    assert(s.subrange(0, i + 1).subrange(0, i) =~= s.subrange(0, i));
    assert(s.subrange(0, i + 1)[i] == s[i]);
}

proof fn lemma_scan_children_step(s: Seq<Child>, i: int)
    requires
        0 <= i < s.len(),
    ensures
        scan_children(s.subrange(0, i + 1)).records == scan_children(s.subrange(0, i)).records
            + scan_child(s[i]).records,
        scan_children(s.subrange(0, i + 1)).diags == scan_children(s.subrange(0, i)).diags
            + scan_child(s[i]).diags,
{
    assert(s.subrange(0, i + 1).subrange(0, i) =~= s.subrange(0, i));
    assert(s.subrange(0, i + 1)[i] == s[i]);
}

proof fn lemma_scan_attrs_step(s: Seq<AttrOrSpread>, i: int)
    requires
        0 <= i < s.len(),
    ensures
        scan_attrs(s.subrange(0, i + 1)).records == scan_attrs(s.subrange(0, i)).records
            + scan_attr(s[i]).records,
        scan_attrs(s.subrange(0, i + 1)).diags == scan_attrs(s.subrange(0, i)).diags
            + scan_attr(s[i]).diags,
{
    assert(s.subrange(0, i + 1).subrange(0, i) =~= s.subrange(0, i));
    assert(s.subrange(0, i + 1)[i] == s[i]);
}

proof fn lemma_scan_items_step(s: Seq<Item>, i: int)
    requires
        0 <= i < s.len(),
    ensures
        scan_items(s.subrange(0, i + 1)).records == scan_items(s.subrange(0, i)).records
            + scan_item(s[i]).records,
        scan_items(s.subrange(0, i + 1)).diags == scan_items(s.subrange(0, i)).diags
            + scan_item(s[i]).diags,
{
    assert(s.subrange(0, i + 1).subrange(0, i) =~= s.subrange(0, i));
    assert(s.subrange(0, i + 1)[i] == s[i]);
}

/// Scans one element: extracts at the element itself, then descends.
pub fn scan_element_x(e: &Element, recs: &mut Vec<Node>, diags: &mut Vec<Diagnostic>)
    ensures
        recs_vw(final(recs)@) == recs_vw(old(recs)@)
            + scan_element(*e).records,
        final(diags)@ == old(diags)@ + scan_element(*e).diags,
    decreases *e,
{
    let ghost r0 = recs_vw(recs@);
    let ghost d0 = diags@;
    if is_djedi_node(e) {
        match Node::extract(e, diags) {
            Some(n) => {
                recs.push(n);
                proof {
                    assert(recs@ =~= old(recs)@.push(n));
                    assert(recs_vw(recs@) =~= r0 + marker_scan(*e).records);
                }
            },
            None => {
                proof {
                    assert(recs_vw(recs@) =~= r0 + marker_scan(*e).records);
                }
            },
        }
    } else {
        proof {
            assert(recs_vw(recs@) =~= r0 + marker_scan(*e).records);
            assert(diags@ =~= d0 + marker_scan(*e).diags);
        }
    }
    let ghost r1 = recs_vw(recs@);
    let ghost d1 = diags@;
    proof {
        assert(decreases_to!(*e => (*e).attrs));
        assert(decreases_to!(*e => e.attrs@));
    }
    scan_attrs_x(&e.attrs, recs, diags);
    proof {
        assert(decreases_to!(*e => (*e).children));
        assert(decreases_to!(*e => e.children@));
    }
    scan_children_x(&e.children, recs, diags);
    proof {
        assert(recs_vw(recs@) =~= r0 + scan_element(*e).records);
        assert(diags@ =~= d0 + scan_element(*e).diags);
    }
}

/// Scans an attribute list.
pub fn scan_attrs_x(s: &Vec<AttrOrSpread>, recs: &mut Vec<Node>, diags: &mut Vec<Diagnostic>)
    ensures
        recs_vw(final(recs)@) == recs_vw(old(recs)@)
            + scan_attrs(s@).records,
        final(diags)@ == old(diags)@ + scan_attrs(s@).diags,
    decreases s@,
{
    let ghost all = s@;
    let ghost r0 = recs_vw(recs@);
    let ghost d0 = diags@;
    let mut i: usize = 0;
    proof {
        assert(all.subrange(0, 0) =~= Seq::<AttrOrSpread>::empty());
    }
    while i < s.len()
        invariant
            i <= s.len(),
            all == s@,
            recs_vw(recs@) == r0 + scan_attrs(all.subrange(0, i as int)).records,
            diags@ == d0 + scan_attrs(all.subrange(0, i as int)).diags,
        decreases s.len() - i,
    {
        proof {
            assert(decreases_to!(all => all[i as int]));
        }
        scan_attr_x(&s[i], recs, diags);
        proof {
            lemma_scan_attrs_step(all, i as int);
            assert(recs_vw(recs@) =~= r0 + scan_attrs(
                all.subrange(0, i + 1),
            ).records);
            assert(diags@ =~= d0 + scan_attrs(all.subrange(0, i + 1)).diags);
        }
        i = i + 1;
    }
    proof {
        assert(all.subrange(0, all.len() as int) =~= all);
    }
}

/// Scans one attribute list entry: the value of a named attribute, or
/// the spread expression.
pub fn scan_attr_x(a: &AttrOrSpread, recs: &mut Vec<Node>, diags: &mut Vec<Diagnostic>)
    ensures
        recs_vw(final(recs)@) == recs_vw(old(recs)@)
            + scan_attr(*a).records,
        final(diags)@ == old(diags)@ + scan_attr(*a).diags,
    decreases *a,
{
    let ghost r0 = recs_vw(recs@);
    let ghost d0 = diags@;
    match a {
        AttrOrSpread::Attr(at) => {
            match &at.value {
                Some(v) => {
                    proof {
                        assert(decreases_to!(*a => (*a)->Attr_0));
                        assert(decreases_to!((*a)->Attr_0 => (*a)->Attr_0.value));
                        assert(decreases_to!((*a)->Attr_0.value => (*a)->Attr_0.value->0));
                        assert(decreases_to!(*a => *v));
                    }
                    scan_attr_value_x(v, recs, diags);
                },
                None => {
                    proof {
                        assert(recs_vw(recs@) =~= r0 + scan_attr(*a).records);
                        assert(diags@ =~= d0 + scan_attr(*a).diags);
                    }
                },
            }
        },
        AttrOrSpread::Spread(ex) => {
            proof {
                assert(decreases_to!(*a => (*a)->Spread_0));
            }
            scan_expr_x(ex, recs, diags);
        },
    }
}

/// Scans an attribute value.
pub fn scan_attr_value_x(v: &AttrValue, recs: &mut Vec<Node>, diags: &mut Vec<Diagnostic>)
    ensures
        recs_vw(final(recs)@) == recs_vw(old(recs)@)
            + scan_attr_value(*v).records,
        final(diags)@ == old(diags)@ + scan_attr_value(*v).diags,
    decreases *v,
{
    let ghost r0 = recs_vw(recs@);
    let ghost d0 = diags@;
    match v {
        AttrValue::Lit(_) => {
            proof {
                assert(recs_vw(recs@) =~= r0 + scan_attr_value(*v).records);
                assert(diags@ =~= d0 + scan_attr_value(*v).diags);
            }
        },
        AttrValue::Container(c) => {
            proof {
                assert(decreases_to!(*v => (*v)->Container_0));
            }
            scan_container_x(c, recs, diags);
        },
        AttrValue::Element(el) => {
            proof {
                assert(decreases_to!(*v => (*v)->Element_0));
            }
            scan_element_x(&**el, recs, diags);
        },
        AttrValue::Fragment { children, .. } => {
            proof {
                assert(decreases_to!(*v => (*v)->Fragment_children));
                assert(decreases_to!(*v => children@));
            }
            scan_children_x(children, recs, diags);
        },
    }
}

/// Scans an expression container.
pub fn scan_container_x(c: &Container, recs: &mut Vec<Node>, diags: &mut Vec<Diagnostic>)
    ensures
        recs_vw(final(recs)@) == recs_vw(old(recs)@)
            + scan_container(*c).records,
        final(diags)@ == old(diags)@ + scan_container(*c).diags,
    decreases *c,
{
    let ghost r0 = recs_vw(recs@);
    let ghost d0 = diags@;
    match &c.expr {
        Some(e) => {
            proof {
                assert(decreases_to!(*c => (*c).expr));
                assert(decreases_to!((*c).expr => (*c).expr->0));
                assert(decreases_to!(*c => **e));
            }
            scan_expr_x(&**e, recs, diags);
        },
        None => {
            proof {
                assert(recs_vw(recs@) =~= r0 + scan_container(*c).records);
                assert(diags@ =~= d0 + scan_container(*c).diags);
            }
        },
    }
}

/// Scans a child list.
pub fn scan_children_x(s: &Vec<Child>, recs: &mut Vec<Node>, diags: &mut Vec<Diagnostic>)
    ensures
        recs_vw(final(recs)@) == recs_vw(old(recs)@)
            + scan_children(s@).records,
        final(diags)@ == old(diags)@ + scan_children(s@).diags,
    decreases s@,
{
    let ghost all = s@;
    let ghost r0 = recs_vw(recs@);
    let ghost d0 = diags@;
    let mut i: usize = 0;
    proof {
        assert(all.subrange(0, 0) =~= Seq::<Child>::empty());
    }
    while i < s.len()
        invariant
            i <= s.len(),
            all == s@,
            recs_vw(recs@) == r0 + scan_children(all.subrange(0, i as int)).records,
            diags@ == d0 + scan_children(all.subrange(0, i as int)).diags,
        decreases s.len() - i,
    {
        proof {
            assert(decreases_to!(all => all[i as int]));
        }
        scan_child_x(&s[i], recs, diags);
        proof {
            lemma_scan_children_step(all, i as int);
            assert(recs_vw(recs@) =~= r0 + scan_children(
                all.subrange(0, i + 1),
            ).records);
            assert(diags@ =~= d0 + scan_children(all.subrange(0, i + 1)).diags);
        }
        i = i + 1;
    }
    proof {
        assert(all.subrange(0, all.len() as int) =~= all);
    }
}

/// Scans one child.
pub fn scan_child_x(c: &Child, recs: &mut Vec<Node>, diags: &mut Vec<Diagnostic>)
    ensures
        recs_vw(final(recs)@) == recs_vw(old(recs)@)
            + scan_child(*c).records,
        final(diags)@ == old(diags)@ + scan_child(*c).diags,
    decreases *c,
{
    let ghost r0 = recs_vw(recs@);
    let ghost d0 = diags@;
    match c {
        Child::Text { .. } => {
            proof {
                assert(recs_vw(recs@) =~= r0 + scan_child(*c).records);
                assert(diags@ =~= d0 + scan_child(*c).diags);
            }
        },
        Child::Container(ct) => {
            proof {
                assert(decreases_to!(*c => (*c)->Container_0));
            }
            scan_container_x(ct, recs, diags);
        },
        Child::Element(el) => {
            proof {
                assert(decreases_to!(*c => (*c)->Element_0));
            }
            scan_element_x(&**el, recs, diags);
        },
        Child::Fragment { children, .. } => {
            proof {
                assert(decreases_to!(*c => (*c)->Fragment_children));
                assert(decreases_to!(*c => children@));
            }
            scan_children_x(children, recs, diags);
        },
        Child::Spread { expr, .. } => {
            proof {
                assert(decreases_to!(*c => (*c)->Spread_expr));
            }
            scan_expr_x(expr, recs, diags);
        },
    }
}

/// Scans one expression.
pub fn scan_expr_x(e: &Expr, recs: &mut Vec<Node>, diags: &mut Vec<Diagnostic>)
    ensures
        recs_vw(final(recs)@) == recs_vw(old(recs)@)
            + scan_expr(*e).records,
        final(diags)@ == old(diags)@ + scan_expr(*e).diags,
    decreases *e,
{
    let ghost r0 = recs_vw(recs@);
    let ghost d0 = diags@;
    match e {
        Expr::Lit(_) => {
            proof {
                assert(recs_vw(recs@) =~= r0 + scan_expr(*e).records);
                assert(diags@ =~= d0 + scan_expr(*e).diags);
            }
        },
        Expr::Ident(_) => {
            proof {
                assert(recs_vw(recs@) =~= r0 + scan_expr(*e).records);
                assert(diags@ =~= d0 + scan_expr(*e).diags);
            }
        },
        Expr::Tpl(t) => {
            proof {
                assert(decreases_to!(*e => (*e)->Tpl_0));
                assert(decreases_to!((*e)->Tpl_0 => (*e)->Tpl_0.exprs));
                assert(decreases_to!(*e => t.exprs@));
            }
            scan_exprs_x(&t.exprs, recs, diags);
        },
        Expr::TaggedTpl { tag, tpl } => {
            proof {
                assert(decreases_to!(*e => (*e)->TaggedTpl_tag));
                assert(decreases_to!(*e => **tag));
            }
            scan_expr_x(&**tag, recs, diags);
            proof {
                assert(decreases_to!(*e => (*e)->TaggedTpl_tpl));
                assert(decreases_to!((*e)->TaggedTpl_tpl => (*e)->TaggedTpl_tpl.exprs));
                assert(decreases_to!(*e => tpl.exprs@));
            }
            scan_exprs_x(&tpl.exprs, recs, diags);
            proof {
                assert(recs_vw(recs@) =~= r0 + scan_expr(*e).records);
                assert(diags@ =~= d0 + scan_expr(*e).diags);
            }
        },
        Expr::Jsx(el) => {
            proof {
                assert(decreases_to!(*e => (*e)->Jsx_0));
            }
            scan_element_x(&**el, recs, diags);
        },
        Expr::Other(es) => {
            proof {
                assert(decreases_to!(*e => (*e)->Other_0));
                assert(decreases_to!(*e => es@));
            }
            scan_exprs_x(es, recs, diags);
        },
    }
}

/// Scans an expression list.
pub fn scan_exprs_x(s: &Vec<Expr>, recs: &mut Vec<Node>, diags: &mut Vec<Diagnostic>)
    ensures
        recs_vw(final(recs)@) == recs_vw(old(recs)@)
            + scan_exprs(s@).records,
        final(diags)@ == old(diags)@ + scan_exprs(s@).diags,
    decreases s@,
{
    let ghost all = s@;
    let ghost r0 = recs_vw(recs@);
    let ghost d0 = diags@;
    let mut i: usize = 0;
    proof {
        assert(all.subrange(0, 0) =~= Seq::<Expr>::empty());
    }
    while i < s.len()
        invariant
            i <= s.len(),
            all == s@,
            recs_vw(recs@) == r0 + scan_exprs(all.subrange(0, i as int)).records,
            diags@ == d0 + scan_exprs(all.subrange(0, i as int)).diags,
        decreases s.len() - i,
    {
        proof {
            assert(decreases_to!(all => all[i as int]));
        }
        scan_expr_x(&s[i], recs, diags);
        proof {
            lemma_scan_exprs_step(all, i as int);
            assert(recs_vw(recs@) =~= r0 + scan_exprs(
                all.subrange(0, i + 1),
            ).records);
            assert(diags@ =~= d0 + scan_exprs(all.subrange(0, i + 1)).diags);
        }
        i = i + 1;
    }
    proof {
        assert(all.subrange(0, all.len() as int) =~= all);
    }
}

/// Scans one module item.
pub fn scan_item_x(it: &Item, recs: &mut Vec<Node>, diags: &mut Vec<Diagnostic>)
    ensures
        recs_vw(final(recs)@) == recs_vw(old(recs)@)
            + scan_item(*it).records,
        final(diags)@ == old(diags)@ + scan_item(*it).diags,
{
    let ghost r0 = recs_vw(recs@);
    let ghost d0 = diags@;
    match it {
        Item::Import { .. } => {
            proof {
                assert(recs_vw(recs@) =~= r0 + scan_item(*it).records);
                assert(diags@ =~= d0 + scan_item(*it).diags);
            }
        },
        Item::ReportCall { .. } => {
            proof {
                assert(recs_vw(recs@) =~= r0 + scan_item(*it).records);
                assert(diags@ =~= d0 + scan_item(*it).diags);
            }
        },
        Item::Stmt(e) => {
            scan_expr_x(e, recs, diags);
        },
        Item::Other(es) => {
            scan_exprs_x(es, recs, diags);
        },
    }
}

/// Scans a whole module's item list.
pub fn scan_items_x(s: &Vec<Item>, recs: &mut Vec<Node>, diags: &mut Vec<Diagnostic>)
    ensures
        recs_vw(final(recs)@) == recs_vw(old(recs)@)
            + scan_items(s@).records,
        final(diags)@ == old(diags)@ + scan_items(s@).diags,
{
    let ghost all = s@;
    let ghost r0 = recs_vw(recs@);
    let ghost d0 = diags@;
    let mut i: usize = 0;
    proof {
        assert(all.subrange(0, 0) =~= Seq::<Item>::empty());
    }
    while i < s.len()
        invariant
            i <= s.len(),
            all == s@,
            recs_vw(recs@) == r0 + scan_items(all.subrange(0, i as int)).records,
            diags@ == d0 + scan_items(all.subrange(0, i as int)).diags,
        decreases s.len() - i,
    {
        scan_item_x(&s[i], recs, diags);
        proof {
            lemma_scan_items_step(all, i as int);
            assert(recs_vw(recs@) =~= r0 + scan_items(
                all.subrange(0, i + 1),
            ).records);
            assert(diags@ =~= d0 + scan_items(all.subrange(0, i + 1)).diags);
        }
        i = i + 1;
    }
    proof {
        assert(all.subrange(0, all.len() as int) =~= all);
    }
}

} // verus!
