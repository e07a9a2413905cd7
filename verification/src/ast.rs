//! Model of the slice of a JavaScript/JSX module tree that the transform
//! reads and writes: elements with their names, attributes and children,
//! the expression shapes that the static-string grammar inspects, and
//! module-level items including the two synthesized shapes (the import of
//! the registration entry point and the registration call).
//!
//! Text is carried as `Vec<char>`, so that every rule over it is stated
//! over `Seq<char>` views.
use vstd::prelude::*;

verus! {

/// A source region, used to attach diagnostics to the place they concern.
#[derive(Clone, Copy, PartialEq, Eq, Structural, Debug)]
pub struct Span {
    pub lo: u32,
    pub hi: u32,
}

/// A literal expression. Only string-valued literals (plain strings and
/// element text) take part in the static-string grammar; every other
/// literal kind is `Other`.
pub enum Lit {
    Str { span: Span, value: Vec<char> },
    JSXText { span: Span, value: Vec<char> },
    Other { span: Span },
}

/// A template literal: the quasi (raw text) segments and the interpolated
/// expressions between them.
pub struct Tpl {
    pub quasis: Vec<Vec<char>>,
    pub exprs: Vec<Expr>,
}

/// An expression, as far as the transform distinguishes shapes. Anything
/// it does not inspect is `Other`, which still carries the directly
/// contained expressions so that the traversal reaches elements nested
/// inside.
pub enum Expr {
    Lit(Lit),
    Ident(Vec<char>),
    Tpl(Tpl),
    TaggedTpl { tag: Box<Expr>, tpl: Tpl },
    Jsx(Box<Element>),
    Other(Vec<Expr>),
}

/// An expression container child or attribute value, `{...}` in source.
/// `expr` is `None` for an empty (comment-only) container.
pub struct Container {
    pub span: Span,
    pub expr: Option<Box<Expr>>,
}

/// An attribute name: a plain identifier or a namespaced name.
pub enum AttrName {
    Ident(Vec<char>),
    Namespaced,
}

/// An attribute value.
pub enum AttrValue {
    Lit(Lit),
    Container(Container),
    Element(Box<Element>),
    Fragment { span: Span, children: Vec<Child> },
}

/// A named attribute, possibly without a value (`<a disabled>`).
pub struct Attr {
    pub name: AttrName,
    pub value: Option<AttrValue>,
}

/// An entry of an element's attribute list.
pub enum AttrOrSpread {
    Attr(Attr),
    Spread(Expr),
}

/// A child of an element.
pub enum Child {
    Text { span: Span, value: Vec<char> },
    Container(Container),
    Element(Box<Element>),
    Fragment { span: Span, children: Vec<Child> },
    Spread { span: Span, expr: Expr },
}

/// An element's tag name: a plain identifier, a member expression
/// (`a.b`), or a namespaced name (`a:b`).
pub enum ElementName {
    Ident(Vec<char>),
    Member,
    Namespaced,
}

/// An element node.
pub struct Element {
    pub span: Span,
    pub name: ElementName,
    pub attrs: Vec<AttrOrSpread>,
    pub children: Vec<Child>,
}

/// A top-level module item. `Import` stands for
/// `import { djedi as <local> } from "djedi-react";` and `ReportCall` for
/// `<local>.reportPrefetchableNode({ uri: <uri>, value: <value or null> })`,
/// the two shapes the transform synthesizes. `Stmt` is an expression
/// statement; every other item is `Other`, carrying the expressions it
/// directly contains.
pub enum Item {
    Import { local: Vec<char> },
    ReportCall { local: Vec<char>, uri: Vec<char>, value: Option<Vec<char>> },
    Stmt(Expr),
    Other(Vec<Expr>),
}

/// The span a literal carries.
pub open spec fn lit_span(l: Lit) -> Span {
    match l {
        Lit::Str { span, .. } => span,
        Lit::JSXText { span, .. } => span,
        Lit::Other { span } => span,
    }
}

/// The span an attribute value carries.
pub open spec fn attr_value_span(v: AttrValue) -> Span {
    match v {
        AttrValue::Lit(l) => lit_span(l),
        AttrValue::Container(c) => c.span,
        AttrValue::Element(e) => e.span,
        AttrValue::Fragment { span, .. } => span,
    }
}

/// The span a child carries.
pub open spec fn child_span(c: Child) -> Span {
    match c {
        Child::Text { span, .. } => span,
        Child::Container(ct) => ct.span,
        Child::Element(e) => e.span,
        Child::Fragment { span, .. } => span,
        Child::Spread { span, .. } => span,
    }
}

} // verus!
