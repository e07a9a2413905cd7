use djedi_prefetch::ast::{
    Attr, AttrName, AttrOrSpread, AttrValue, Child, Container, Element, ElementName, Expr, Item,
    Lit, Span, Tpl,
};
use djedi_prefetch::diag::{DiagKind, Diagnostic, Severity};
use djedi_prefetch::extract::Node;
use djedi_prefetch::rewrite::{make_report_call, process_transform};

fn chars(s: &str) -> Vec<char> {
    s.chars().collect()
}

fn sp(lo: u32, hi: u32) -> Span {
    Span { lo, hi }
}

fn marker(attrs: Vec<AttrOrSpread>, children: Vec<Child>) -> Element {
    Element { span: sp(0, 100), name: ElementName::Ident(chars("Node")), attrs, children }
}

fn uri_lit(s: &str) -> AttrOrSpread {
    AttrOrSpread::Attr(Attr {
        name: AttrName::Ident(chars("uri")),
        value: Some(AttrValue::Lit(Lit::Str { span: sp(5, 10), value: chars(s) })),
    })
}

fn jsx_item(e: Element) -> Item {
    Item::Stmt(Expr::Jsx(Box::new(e)))
}

fn directive(s: &str) -> Item {
    Item::Stmt(Expr::Lit(Lit::Str { span: sp(0, 12), value: chars(s) }))
}

fn plain_tpl(s: &str) -> Tpl {
    Tpl { quasis: vec![chars(s)], exprs: vec![] }
}

fn run(items: Vec<Item>) -> (Vec<Item>, Vec<Diagnostic>) {
    process_transform(items, chars("djedi"))
}

fn expect_call(it: &Item, uri: &str, value: Option<&str>) {
    match it {
        Item::ReportCall { local, uri: u, value: v } => {
            assert_eq!(*local, chars("djedi"));
            assert_eq!(*u, chars(uri));
            match (v, value) {
                (None, None) => {}
                (Some(got), Some(want)) => assert_eq!(*got, chars(want)),
                _ => panic!("default value does not match"),
            }
        }
        _ => panic!("expected a registration call"),
    }
}

fn expect_import(it: &Item) {
    match it {
        Item::Import { local } => assert_eq!(*local, chars("djedi")),
        _ => panic!("expected the import"),
    }
}

#[test]
fn no_markers_unchanged() {
    let items = vec![
        directive("use strict"),
        Item::Other(vec![Expr::Ident(chars("x"))]),
        Item::Stmt(Expr::Jsx(Box::new(Element {
            span: sp(0, 9),
            name: ElementName::Ident(chars("div")),
            attrs: vec![],
            children: vec![],
        }))),
    ];
    let (out, diags) = run(items);
    assert_eq!(out.len(), 3);
    assert!(diags.is_empty());
    assert!(matches!(&out[0], Item::Stmt(Expr::Lit(Lit::Str { .. }))));
    assert!(matches!(&out[1], Item::Other(_)));
    assert!(matches!(&out[2], Item::Stmt(Expr::Jsx(_))));
}

#[test]
fn literal_uri_no_children_registers_null() {
    let items = vec![jsx_item(marker(vec![uri_lit("foo")], vec![]))];
    let (out, diags) = run(items);
    assert!(diags.is_empty());
    assert_eq!(out.len(), 3);
    expect_import(&out[0]);
    expect_call(&out[1], "foo", None);
    assert!(matches!(&out[2], Item::Stmt(Expr::Jsx(_))));
}

#[test]
fn two_markers_one_import_two_calls_in_order() {
    let items = vec![
        jsx_item(marker(vec![uri_lit("first")], vec![])),
        Item::Other(vec![]),
        jsx_item(marker(vec![uri_lit("second")], vec![])),
    ];
    let (out, diags) = run(items);
    assert!(diags.is_empty());
    assert_eq!(out.len(), 6);
    expect_import(&out[0]);
    expect_call(&out[1], "first", None);
    expect_call(&out[2], "second", None);
    assert!(matches!(&out[3], Item::Stmt(Expr::Jsx(_))));
    assert!(matches!(&out[4], Item::Other(_)));
    assert!(matches!(&out[5], Item::Stmt(Expr::Jsx(_))));
    let imports = out.iter().filter(|i| matches!(i, Item::Import { .. })).count();
    assert_eq!(imports, 1);
}

#[test]
fn transformed_output_is_fixed_point() {
    let items = vec![
        Item::Import { local: chars("djedi") },
        Item::ReportCall { local: chars("djedi"), uri: chars("foo"), value: None },
        Item::Stmt(Expr::Ident(chars("render"))),
    ];
    let (out, diags) = run(items);
    assert!(diags.is_empty());
    assert_eq!(out.len(), 3);
    expect_import(&out[0]);
    expect_call(&out[1], "foo", None);
    assert!(matches!(&out[2], Item::Stmt(Expr::Ident(_))));
}

#[test]
fn template_literal_default() {
    let child = Child::Container(Container {
        span: sp(20, 40),
        expr: Some(Box::new(Expr::Tpl(plain_tpl("simple value")))),
    });
    let items = vec![jsx_item(marker(vec![uri_lit("foo")], vec![child]))];
    let (out, diags) = run(items);
    assert!(diags.is_empty());
    expect_call(&out[1], "foo", Some("simple value"));
}

#[test]
fn markdown_tagged_template_default() {
    let child = Child::Container(Container {
        span: sp(20, 40),
        expr: Some(Box::new(Expr::TaggedTpl {
            tag: Box::new(Expr::Ident(chars("md"))),
            tpl: plain_tpl("**Markdown**"),
        })),
    });
    let items = vec![jsx_item(marker(vec![uri_lit("foo")], vec![child]))];
    let (out, diags) = run(items);
    assert!(diags.is_empty());
    expect_call(&out[1], "foo", Some("**Markdown**"));
}

#[test]
fn unknown_tagged_template_yields_null_silently() {
    let child = Child::Container(Container {
        span: sp(20, 40),
        expr: Some(Box::new(Expr::TaggedTpl {
            tag: Box::new(Expr::Ident(chars("tag"))),
            tpl: plain_tpl("hello world"),
        })),
    });
    let items = vec![jsx_item(marker(vec![uri_lit("foo")], vec![child]))];
    let (out, diags) = run(items);
    assert!(diags.is_empty());
    expect_call(&out[1], "foo", None);
}

#[test]
fn two_children_error_still_registers_null() {
    let children = vec![
        Child::Text { span: sp(20, 25), value: chars("one") },
        Child::Text { span: sp(26, 31), value: chars("two") },
    ];
    let items = vec![jsx_item(marker(vec![uri_lit("foo")], children))];
    let (out, diags) = run(items);
    assert_eq!(
        diags,
        vec![Diagnostic { kind: DiagKind::TooManyChildren, span: sp(0, 100) }]
    );
    assert_eq!(out.len(), 3);
    expect_call(&out[1], "foo", None);
}

#[test]
fn missing_uri_warns_and_excludes() {
    let items = vec![jsx_item(marker(vec![], vec![]))];
    let (out, diags) = run(items);
    assert_eq!(
        diags,
        vec![Diagnostic { kind: DiagKind::MissingIdentifier, span: sp(0, 100) }]
    );
    assert_eq!(out.len(), 1);
    assert!(matches!(&out[0], Item::Stmt(Expr::Jsx(_))));
}

#[test]
fn directive_keeps_leading_position() {
    let items = vec![
        directive("use strict"),
        jsx_item(marker(vec![uri_lit("foo")], vec![Child::Text {
            span: sp(30, 43),
            value: chars("default value"),
        }])),
    ];
    let (out, diags) = run(items);
    assert!(diags.is_empty());
    assert_eq!(out.len(), 4);
    match &out[0] {
        Item::Stmt(Expr::Lit(Lit::Str { value, .. })) => assert_eq!(*value, chars("use strict")),
        _ => panic!("directive moved away from the front"),
    }
    expect_import(&out[1]);
    expect_call(&out[2], "foo", Some("default value"));
    assert!(matches!(&out[3], Item::Stmt(Expr::Jsx(_))));
}

#[test]
fn dynamic_uri_warns_and_excludes() {
    let attr = AttrOrSpread::Attr(Attr {
        name: AttrName::Ident(chars("uri")),
        value: Some(AttrValue::Container(Container {
            span: sp(5, 15),
            expr: Some(Box::new(Expr::Other(vec![]))),
        })),
    });
    let items = vec![jsx_item(marker(vec![attr], vec![]))];
    let (out, diags) = run(items);
    assert_eq!(
        diags,
        vec![Diagnostic { kind: DiagKind::NonStaticIdentifier, span: sp(5, 15) }]
    );
    assert_eq!(out.len(), 1);
}

#[test]
fn template_uri_in_container_accepted() {
    let attr = AttrOrSpread::Attr(Attr {
        name: AttrName::Ident(chars("uri")),
        value: Some(AttrValue::Container(Container {
            span: sp(5, 15),
            expr: Some(Box::new(Expr::Tpl(plain_tpl("tpl-uri")))),
        })),
    });
    let items = vec![jsx_item(marker(vec![attr], vec![]))];
    let (out, diags) = run(items);
    assert!(diags.is_empty());
    expect_call(&out[1], "tpl-uri", None);
}

#[test]
fn whitespace_text_and_comment_containers_are_ignored() {
    let children = vec![
        Child::Text { span: sp(20, 24), value: chars(" \n\t ") },
        Child::Container(Container { span: sp(25, 30), expr: None }),
    ];
    let items = vec![jsx_item(marker(vec![uri_lit("foo")], children))];
    let (out, diags) = run(items);
    assert!(diags.is_empty());
    expect_call(&out[1], "foo", None);
}

#[test]
fn text_child_becomes_default() {
    let children = vec![Child::Text { span: sp(20, 33), value: chars("default value") }];
    let items = vec![jsx_item(marker(vec![uri_lit("foo")], children))];
    let (out, diags) = run(items);
    assert!(diags.is_empty());
    expect_call(&out[1], "foo", Some("default value"));
}

#[test]
fn element_child_errors_at_child_span() {
    let nested = Element {
        span: sp(40, 50),
        name: ElementName::Ident(chars("em")),
        attrs: vec![],
        children: vec![],
    };
    let children = vec![Child::Element(Box::new(nested))];
    let items = vec![jsx_item(marker(vec![uri_lit("foo")], children))];
    let (out, diags) = run(items);
    assert_eq!(
        diags,
        vec![Diagnostic { kind: DiagKind::MalformedChildShape, span: sp(40, 50) }]
    );
    expect_call(&out[1], "foo", None);
}

#[test]
fn interpolated_template_default_is_null_silently() {
    let tpl = Tpl {
        quasis: vec![chars("a"), chars("b")],
        exprs: vec![Expr::Ident(chars("x"))],
    };
    let child = Child::Container(Container {
        span: sp(20, 40),
        expr: Some(Box::new(Expr::Tpl(tpl))),
    });
    let items = vec![jsx_item(marker(vec![uri_lit("foo")], vec![child]))];
    let (out, diags) = run(items);
    assert!(diags.is_empty());
    expect_call(&out[1], "foo", None);
}

#[test]
fn marker_nested_in_other_element_is_found() {
    let inner = marker(vec![uri_lit("deep")], vec![]);
    let outer = Element {
        span: sp(0, 60),
        name: ElementName::Ident(chars("div")),
        attrs: vec![],
        children: vec![Child::Element(Box::new(inner))],
    };
    let items = vec![Item::Other(vec![Expr::Other(vec![Expr::Jsx(Box::new(outer))])])];
    let (out, diags) = run(items);
    assert!(diags.is_empty());
    assert_eq!(out.len(), 3);
    expect_import(&out[0]);
    expect_call(&out[1], "deep", None);
}

#[test]
fn uri_search_skips_spread_namespaced_and_valueless() {
    let attrs = vec![
        AttrOrSpread::Spread(Expr::Ident(chars("props"))),
        AttrOrSpread::Attr(Attr { name: AttrName::Namespaced, value: None }),
        AttrOrSpread::Attr(Attr { name: AttrName::Ident(chars("uri")), value: None }),
        uri_lit("real"),
        uri_lit("second"),
    ];
    let items = vec![jsx_item(marker(attrs, vec![]))];
    let (out, diags) = run(items);
    assert!(diags.is_empty());
    expect_call(&out[1], "real", None);
}

#[test]
fn member_named_element_is_not_a_marker() {
    let e = Element {
        span: sp(0, 20),
        name: ElementName::Member,
        attrs: vec![uri_lit("foo")],
        children: vec![],
    };
    let (out, diags) = run(vec![jsx_item(e)]);
    assert!(diags.is_empty());
    assert_eq!(out.len(), 1);
}

#[test]
fn severity_and_messages() {
    let d = |kind| Diagnostic { kind, span: sp(0, 1) };
    assert_eq!(d(DiagKind::MissingIdentifier).severity(), Severity::Warning);
    assert_eq!(d(DiagKind::NonStaticIdentifier).severity(), Severity::Warning);
    assert_eq!(d(DiagKind::MalformedChildShape).severity(), Severity::Error);
    assert_eq!(d(DiagKind::TooManyChildren).severity(), Severity::Error);
    assert_eq!(
        d(DiagKind::MissingIdentifier).message(),
        "not prefetched because no `uri` attribute was found"
    );
    assert_eq!(
        d(DiagKind::NonStaticIdentifier).message(),
        "`uri` attribute must be known at build time for the node to be prefetched"
    );
    assert_eq!(
        d(DiagKind::MalformedChildShape).message(),
        "<Node /> must have text or an expression as its child"
    );
    assert_eq!(
        d(DiagKind::TooManyChildren).message(),
        "<Node /> cannot have more than one child"
    );
}

#[test]
fn report_call_carries_record_and_binding() {
    let n = Node { uri: chars("u"), value: Some(chars("v")) };
    let it = make_report_call(&n, &chars("local1"));
    match it {
        Item::ReportCall { local, uri, value } => {
            assert_eq!(local, chars("local1"));
            assert_eq!(uri, chars("u"));
            assert_eq!(value, Some(chars("v")));
        }
        _ => panic!("expected a registration call"),
    }
}
