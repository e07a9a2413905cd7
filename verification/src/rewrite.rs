//! Synthesis: after one traversal of the module, if any records were
//! extracted, one import of the registration entry point and one
//! registration call per record are inserted, directly after the
//! module's directive prologue and before everything else, in record
//! order. A module without records is returned untouched.
use vstd::prelude::*;
use crate::ast::{Expr, Item, Lit};
use crate::diag::Diagnostic;
use crate::extract::{Node, NodeV, chars_vw, copy_chars, node_vw, recs_vw};
use crate::scan::{scan_items, scan_items_x};

verus! {

/// The mathematical shape of a module item: synthesized shapes carry
/// their text as character sequences, every other item is the
/// expression material it holds.
pub ghost enum ItemV {
    Import { local: Seq<char> },
    ReportCall { local: Seq<char>, uri: Seq<char>, value: Option<Seq<char>> },
    Stmt(Expr),
    Other(Seq<Expr>),
}

/// The view of one module item.
pub open spec fn item_vw(it: Item) -> ItemV {
    match it {
        Item::Import { local } => ItemV::Import { local: local@ },
        Item::ReportCall { local, uri, value } => ItemV::ReportCall {
            local: local@,
            uri: uri@,
            value: chars_vw(value),
        },
        Item::Stmt(e) => ItemV::Stmt(e),
        Item::Other(es) => ItemV::Other(es@),
    }
}

/// The view of an item list.
pub open spec fn items_vw(s: Seq<Item>) -> Seq<ItemV> {
    s.map_values(|it: Item| item_vw(it))
}

/// The registration calls for a record list, each on the given local
/// binding, in record order.
pub open spec fn calls_vw(rs: Seq<NodeV>, local: Seq<char>) -> Seq<ItemV> {
    rs.map_values(|n: NodeV| ItemV::ReportCall { local: local, uri: n.uri, value: n.value })
}

/// Whether an item can stand in the directive prologue: an expression
/// statement whose expression is a string literal.
pub open spec fn is_directive_item(it: Item) -> bool {
    match it {
        Item::Stmt(e) => match e {
            Expr::Lit(l) => l matches Lit::Str { .. },
            _ => false,
        },
        _ => false,
    }
}

/// Checks whether an item can stand in the directive prologue.
pub fn is_directive_item_x(it: &Item) -> (r: bool)
    ensures
        r == is_directive_item(*it),
{
    match it {
        Item::Stmt(e) => match e {
            Expr::Lit(l) => match l {
                Lit::Str { .. } => true,
                _ => false,
            },
            _ => false,
        },
        _ => false,
    }
}

/// The length of the module's directive prologue: the longest prefix of
/// items that are string-literal expression statements. Synthesized
/// items are inserted directly after it.
pub open spec fn directive_len(s: Seq<Item>) -> nat
    decreases s.len(),
{
    if s.len() > 0 && is_directive_item(s[0]) {
        1 + directive_len(s.subrange(1, s.len() as int))
    } else {
        0
    }
}

/// The directive prologue is exactly the run of directive items at the
/// front.
pub proof fn lemma_directive_len_char(s: Seq<Item>, k: int)
    requires
        0 <= k <= s.len(),
        forall|j: int| 0 <= j < k ==> is_directive_item(#[trigger] s[j]),
        k < s.len() ==> !is_directive_item(s[k]),
    ensures
        directive_len(s) == k,
    decreases s.len(),
{
    if s.len() > 0 && is_directive_item(s[0]) {
        let t = s.subrange(1, s.len() as int);
        assert(forall|j: int| 0 <= j < k - 1 ==> #[trigger] t[j] == s[j + 1]);
        lemma_directive_len_char(t, k - 1);
    }
}

/// Builds one registration call item for a record: the call of
/// `reportPrefetchableNode` on the local binding, with the record's
/// identifier under `uri` and its default, or null, under `value`.
pub fn make_report_call(n: &Node, local: &Vec<char>) -> (r: Item)
    ensures
        item_vw(r) == (ItemV::ReportCall { local: local@, uri: n.uri@, value: chars_vw(n.value) }),
{
    Item::ReportCall {
        local: copy_chars(local),
        uri: copy_chars(&n.uri),
        value: match &n.value {
            Some(v) => Some(copy_chars(v)),
            None => None,
        },
    }
}

/// Transforms one module's item list: scans it for marker elements and,
/// when any produced a record, prepends — after the directive
/// prologue — one import bound to `local` and one registration call per
/// record, in encounter order, leaving every original item in place
/// behind them. The diagnostics of the whole traversal are returned in
/// encounter order. `local` is the module's fresh private binding for
/// the registration entry point; the caller chooses it collision-free.
pub fn process_transform(items: Vec<Item>, local: Vec<char>) -> (r: (Vec<Item>, Vec<Diagnostic>))
    ensures
        r.1@ == scan_items(items@).diags,
        scan_items(items@).records.len() == 0 ==> r.0 == items,
        scan_items(items@).records.len() > 0 ==> items_vw(r.0@) == items_vw(items@).subrange(
            0,
            directive_len(items@) as int,
        ) + seq![ItemV::Import { local: local@ }] + calls_vw(scan_items(items@).records, local@)
            + items_vw(items@).subrange(directive_len(items@) as int, items@.len() as int),
{
    let ghost sc = scan_items(items@);
    let mut recs: Vec<Node> = Vec::new();
    let mut diags: Vec<Diagnostic> = Vec::new();
    scan_items_x(&items, &mut recs, &mut diags);
    proof {
        assert(recs_vw(recs@) =~= sc.records);
        assert(diags@ =~= sc.diags);
    }
    if recs.len() == 0 {
        proof {
            assert(sc.records.len() == recs@.len());
        }
        return (items, diags);
    }
    proof {
        assert(sc.records.len() == recs@.len());
    }
    let ghost all = items@;
    let mut items = items;
    let mut p: usize = 0;
    while p < items.len() && is_directive_item_x(&items[p])
        invariant
            p <= items.len(),
            items@ == all,
            forall|j: int| 0 <= j < p ==> is_directive_item(#[trigger] all[j]),
        decreases items.len() - p,
    {
        p = p + 1;
    }
    proof {
        lemma_directive_len_char(all, p as int);
    }
    let mut tail = items.split_off(p);
    let ghost pref = items@;
    items.push(Item::Import { local: copy_chars(&local) });
    let ghost base = items_vw(pref) + seq![ItemV::Import { local: local@ }];
    proof {
        assert(items_vw(items@) =~= base);
    }
    let mut k: usize = 0;
    proof {
        assert(calls_vw(sc.records.subrange(0, 0), local@) =~= Seq::<ItemV>::empty());
        assert(items_vw(items@) =~= base + calls_vw(sc.records.subrange(0, 0), local@));
    }
    while k < recs.len()
        invariant
            k <= recs.len(),
            recs_vw(recs@) == sc.records,
            items_vw(items@) == base + calls_vw(sc.records.subrange(0, k as int), local@),
        decreases recs.len() - k,
    {
        let c = make_report_call(&recs[k], &local);
        let ghost prev = items@;
        items.push(c);
        proof {
            assert(node_vw(recs@[k as int]) == sc.records[k as int]);
            assert(calls_vw(sc.records.subrange(0, k + 1), local@) =~= calls_vw(
                sc.records.subrange(0, k as int),
                local@,
            ) + seq![item_vw(c)]);
            assert(items_vw(items@) =~= items_vw(prev) + seq![item_vw(c)]);
            assert(items_vw(items@) =~= base + calls_vw(
                sc.records.subrange(0, k + 1),
                local@,
            ));
        }
        k = k + 1;
    }
    proof {
        assert(sc.records.subrange(0, sc.records.len() as int) =~= sc.records);
    }
    let ghost tailv = tail@;
    items.append(&mut tail);
    proof {
        assert(items_vw(pref) =~= items_vw(all).subrange(0, p as int));
        assert(items_vw(tailv) =~= items_vw(all).subrange(p as int, all.len() as int));
        assert(items_vw(items@) =~= items_vw(all).subrange(0, directive_len(all) as int) + seq![
            ItemV::Import { local: local@ },
        ] + calls_vw(sc.records, local@) + items_vw(all).subrange(
            directive_len(all) as int,
            all.len() as int,
        ));
    }
    (items, diags)
}

} // verus!
