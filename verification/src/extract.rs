//! Recognition of marker elements and static evaluation of their `uri`
//! attribute and single optional child under the restricted grammar:
//! string literals, element text, substitution-free template literals,
//! and the markdown-tagged template form.
use vstd::prelude::*;
use crate::ast::{
    Attr, AttrName, AttrOrSpread, AttrValue, Child, Container, Element, ElementName, Expr, Lit,
    Span, Tpl, attr_value_span, child_span,
};
use crate::diag::{DiagKind, Diagnostic};

verus! {

/// One extracted registration record: the marker's statically-known
/// identifier and, when present and static, its default value. A record
/// is only ever created with an identifier.
pub struct Node {
    pub uri: Vec<char>,
    pub value: Option<Vec<char>>,
}

/// The mathematical shape of a record: character sequences instead of
/// owned vectors.
pub ghost struct NodeV {
    pub uri: Seq<char>,
    pub value: Option<Seq<char>>,
}

/// The view of an optional text value.
pub open spec fn chars_vw(o: Option<Vec<char>>) -> Option<Seq<char>> {
    match o {
        Some(v) => Some(v@),
        None => None,
    }
}

/// The view of a record.
pub open spec fn node_vw(n: Node) -> NodeV {
    NodeV { uri: n.uri@, value: chars_vw(n.value) }
}

/// The view of a record list.
pub open spec fn recs_vw(s: Seq<Node>) -> Seq<NodeV> {
    s.map_values(|n: Node| node_vw(n))
}

/// The view of an optional record.
pub open spec fn opt_node_vw(o: Option<Node>) -> Option<NodeV> {
    match o {
        Some(n) => Some(node_vw(n)),
        None => None,
    }
}

/// The tag name that marks a prefetchable content node.
pub open spec fn marker_name() -> Seq<char> {
    seq!['N', 'o', 'd', 'e']
}

/// The attribute naming the content node.
pub open spec fn uri_name() -> Seq<char> {
    seq!['u', 'r', 'i']
}

/// The one recognized template tag, marking markdown text.
pub open spec fn md_name() -> Seq<char> {
    seq!['m', 'd']
}

/// Copies a text value.
pub fn copy_chars(v: &Vec<char>) -> (r: Vec<char>)
    ensures
        r@ == v@,
{
    let mut r: Vec<char> = Vec::new();
    let mut i: usize = 0;
    while i < v.len()
        invariant
            i <= v.len(),
            r@ == v@.subrange(0, i as int),
        decreases v.len() - i,
    {
        r.push(v[i]);
        proof {
            assert(r@ =~= v@.subrange(0, i + 1));
        }
        i = i + 1;
    }
    proof {
        assert(v@.subrange(0, v.len() as int) =~= v@);
    }
    r
}

/// Whether this identifier is the marker tag name.
pub fn is_marker_ident(v: &Vec<char>) -> (r: bool)
    ensures
        r == (v@ == marker_name()),
{
    if v.len() == 4 {
        let r = v[0] == 'N' && v[1] == 'o' && v[2] == 'd' && v[3] == 'e';
        proof {
            if r {
                assert(v@ =~= marker_name());
            }
        }
        r
    } else {
        false
    }
}

/// Whether this identifier is the identifying attribute's name.
pub fn is_uri_ident(v: &Vec<char>) -> (r: bool)
    ensures
        r == (v@ == uri_name()),
{
    if v.len() == 3 {
        let r = v[0] == 'u' && v[1] == 'r' && v[2] == 'i';
        proof {
            if r {
                assert(v@ =~= uri_name());
            }
        }
        r
    } else {
        false
    }
}

/// Whether this identifier is the markdown tag.
pub fn is_md_ident(v: &Vec<char>) -> (r: bool)
    ensures
        r == (v@ == md_name()),
{
    if v.len() == 2 {
        let r = v[0] == 'm' && v[1] == 'd';
        proof {
            if r {
                assert(v@ =~= md_name());
            }
        }
        r
    } else {
        false
    }
}

/// Whether the element is a marker: its tag is the plain identifier
/// `Node`. Member and namespaced names never match.
pub open spec fn spec_is_marker(e: Element) -> bool {
    match e.name {
        ElementName::Ident(n) => n@ == marker_name(),
        _ => false,
    }
}

/// Recognizer: pure syntactic shape matching of the tag name.
pub fn is_djedi_node(e: &Element) -> (r: bool)
    ensures
        r == spec_is_marker(*e),
{
    match &e.name {
        ElementName::Ident(n) => is_marker_ident(n),
        _ => false,
    }
}

/// What a literal coerces to under the static-string grammar: plain
/// string literals and element text qualify, nothing else.
pub open spec fn lit_as_str(l: Lit) -> Option<Seq<char>> {
    match l {
        Lit::Str { value, .. } => Some(value@),
        Lit::JSXText { value, .. } => Some(value@),
        Lit::Other { .. } => None,
    }
}

/// What a template literal coerces to: its single quasi segment, and
/// only when it has no substitutions.
pub open spec fn tpl_as_str(t: Tpl) -> Option<Seq<char>> {
    if t.exprs@.len() == 0 && t.quasis@.len() == 1 {
        Some(t.quasis@[0]@)
    } else {
        None
    }
}

/// What an expression coerces to: a string-valued literal, a
/// substitution-free template literal, or such a template tagged with
/// the markdown tag (the tag is discarded). Every other shape is not
/// statically known.
pub open spec fn expr_as_str(e: Expr) -> Option<Seq<char>> {
    match e {
        Expr::Lit(l) => lit_as_str(l),
        Expr::Tpl(t) => tpl_as_str(t),
        Expr::TaggedTpl { tag, tpl } => match *tag {
            Expr::Ident(id) => if id@ == md_name() {
                tpl_as_str(tpl)
            } else {
                None
            },
            _ => None,
        },
        _ => None,
    }
}

/// What an expression container coerces to; an empty container holds
/// nothing.
pub open spec fn container_as_str(c: Container) -> Option<Seq<char>> {
    match c.expr {
        Some(e) => expr_as_str(*e),
        None => None,
    }
}

/// What an attribute value coerces to; element and fragment values are
/// never static.
pub open spec fn attr_value_as_str(v: AttrValue) -> Option<Seq<char>> {
    match v {
        AttrValue::Lit(l) => lit_as_str(l),
        AttrValue::Container(c) => container_as_str(c),
        _ => None,
    }
}

impl Lit {
    /// Coerces this literal under the static-string grammar.
    pub fn as_str_expr(&self) -> (r: Option<Vec<char>>)
        ensures
            chars_vw(r) == lit_as_str(*self),
    {
        match self {
            Lit::Str { value, .. } => Some(copy_chars(value)),
            Lit::JSXText { value, .. } => Some(copy_chars(value)),
            Lit::Other { .. } => None,
        }
    }
}

impl Tpl {
    /// Coerces this template literal under the static-string grammar.
    pub fn as_str_expr(&self) -> (r: Option<Vec<char>>)
        ensures
            chars_vw(r) == tpl_as_str(*self),
    {
        if self.exprs.len() == 0 && self.quasis.len() == 1 {
            Some(copy_chars(&self.quasis[0]))
        } else {
            None
        }
    }
}

/// Coerces an expression under the static-string grammar.
pub fn expr_as_str_expr(e: &Expr) -> (r: Option<Vec<char>>)
    ensures
        chars_vw(r) == expr_as_str(*e),
{
    match e {
        Expr::Lit(l) => l.as_str_expr(),
        Expr::Tpl(t) => t.as_str_expr(),
        Expr::TaggedTpl { tag, tpl } => match &**tag {
            Expr::Ident(id) => if is_md_ident(id) {
                tpl.as_str_expr()
            } else {
                None
            },
            _ => None,
        },
        _ => None,
    }
}

impl Container {
    /// Coerces this container's inner expression.
    pub fn as_str_expr(&self) -> (r: Option<Vec<char>>)
        ensures
            chars_vw(r) == container_as_str(*self),
    {
        match &self.expr {
            Some(e) => expr_as_str_expr(&**e),
            None => None,
        }
    }
}

impl AttrValue {
    /// Coerces this attribute value.
    pub fn as_str_expr(&self) -> (r: Option<Vec<char>>)
        ensures
            chars_vw(r) == attr_value_as_str(*self),
    {
        match self {
            AttrValue::Lit(l) => l.as_str_expr(),
            AttrValue::Container(c) => c.as_str_expr(),
            _ => None,
        }
    }

    /// The span this value carries.
    pub fn span_of(&self) -> (r: Span)
        ensures
            r == attr_value_span(*self),
    {
        match self {
            AttrValue::Lit(l) => match l {
                Lit::Str { span, .. } => *span,
                Lit::JSXText { span, .. } => *span,
                Lit::Other { span } => *span,
            },
            AttrValue::Container(c) => c.span,
            AttrValue::Element(e) => e.span,
            AttrValue::Fragment { span, .. } => *span,
        }
    }
}

/// The value of the first `uri` attribute that has one: the earliest
/// attribute list entry that is a plain attribute named `uri` carrying a
/// value. Spread entries, namespaced names and valueless `uri`
/// attributes are passed over.
pub open spec fn find_uri_value(attrs: Seq<AttrOrSpread>) -> Option<AttrValue>
    decreases attrs.len(),
{
    if attrs.len() == 0 {
        None
    } else {
        match attrs[0] {
            AttrOrSpread::Attr(a) => match a.name {
                AttrName::Ident(n) => if n@ == uri_name() && a.value is Some {
                    a.value
                } else {
                    find_uri_value(attrs.subrange(1, attrs.len() as int))
                },
                _ => find_uri_value(attrs.subrange(1, attrs.len() as int)),
            },
            AttrOrSpread::Spread(_) => find_uri_value(attrs.subrange(1, attrs.len() as int)),
        }
    }
}

/// The marker's statically-known identifier, when it has one.
pub open spec fn spec_uri(e: Element) -> Option<Seq<char>> {
    match find_uri_value(e.attrs@) {
        Some(v) => attr_value_as_str(v),
        None => None,
    }
}

/// The diagnostics identifier extraction produces: a warning when the
/// `uri` attribute is missing, a warning when its value is not
/// statically known, nothing otherwise.
pub open spec fn spec_uri_diags(e: Element) -> Seq<Diagnostic> {
    match find_uri_value(e.attrs@) {
        None => seq![Diagnostic { kind: DiagKind::MissingIdentifier, span: e.span }],
        Some(v) => if attr_value_as_str(v) is None {
            seq![Diagnostic { kind: DiagKind::NonStaticIdentifier, span: attr_value_span(v) }]
        } else {
            Seq::empty()
        },
    }
}

/// Gets the value of the `uri` attribute, reporting why when there is
/// none to use.
pub fn uri_attr(e: &Element, diags: &mut Vec<Diagnostic>) -> (r: Option<Vec<char>>)
    ensures
        chars_vw(r) == spec_uri(*e),
        final(diags)@ == old(diags)@ + spec_uri_diags(*e),
{
    let ghost all = e.attrs@;
    let mut found_idx: Option<usize> = None;
    let mut i: usize = 0;
    proof {
        assert(all.subrange(0, all.len() as int) =~= all);
    }
    while i < e.attrs.len() && found_idx.is_none()
        invariant
            i <= e.attrs.len(),
            all == e.attrs@,
            diags@ == old(diags)@,
            match found_idx {
                None => find_uri_value(all) == find_uri_value(
                    all.subrange(i as int, all.len() as int),
                ),
                Some(j) => {
                    &&& j < all.len()
                    &&& match all[j as int] {
                        AttrOrSpread::Attr(a) => {
                            &&& a.name matches AttrName::Ident(n) && n@ == uri_name()
                            &&& a.value is Some
                            &&& find_uri_value(all) == a.value
                        },
                        AttrOrSpread::Spread(_) => false,
                    }
                },
            },
        decreases e.attrs.len() - i,
    {
        let ghost rest = all.subrange(i as int, all.len() as int);
        proof {
            assert(rest.subrange(1, rest.len() as int) =~= all.subrange(
                i + 1,
                all.len() as int,
            ));
            assert(rest[0] == all[i as int]);
        }
        match &e.attrs[i] {
            AttrOrSpread::Attr(a) => {
                match &a.name {
                    AttrName::Ident(n) => {
                        if is_uri_ident(n) && a.value.is_some() {
                            found_idx = Some(i);
                        }
                    },
                    _ => {},
                }
            },
            AttrOrSpread::Spread(_) => {},
        }
        i = i + 1;
    }
    match found_idx {
        None => {
            proof {
                assert(all.subrange(i as int, all.len() as int) =~= Seq::<AttrOrSpread>::empty());
                assert(find_uri_value(all) is None);
            }
            let d = Diagnostic { kind: DiagKind::MissingIdentifier, span: e.span };
            diags.push(d);
            proof {
                assert(diags@ =~= old(diags)@ + spec_uri_diags(*e));
            }
            None
        },
        Some(j) => {
            match &e.attrs[j] {
                AttrOrSpread::Attr(a) => {
                    match &a.value {
                        Some(v) => {
                            let r = v.as_str_expr();
                            if r.is_none() {
                                let d = Diagnostic {
                                    kind: DiagKind::NonStaticIdentifier,
                                    span: v.span_of(),
                                };
                                diags.push(d);
                                proof {
                                    assert(diags@ =~= old(diags)@ + spec_uri_diags(*e));
                                }
                            } else {
                                proof {
                                    assert(diags@ =~= old(diags)@ + spec_uri_diags(*e));
                                }
                            }
                            r
                        },
                        None => {
                            // the loop records only valued uri attributes
                            proof {
                                assert(false);
                            }
                            None
                        },
                    }
                },
                AttrOrSpread::Spread(_) => {
                    // the loop records only plain attributes
                    proof {
                        assert(false);
                    }
                    None
                },
            }
        },
    }
}

/// Whether a character has the Unicode white-space property: the ASCII
/// spacing characters, next line, no-break space, the Unicode space
/// separators, and the line and paragraph separators.
pub open spec fn is_space_char(c: char) -> bool {
    ||| c == ' '
    ||| c == '\t'
    ||| c == '\n'
    ||| c == '\r'
    ||| c == '\u{b}'
    ||| c == '\u{c}'
    ||| c == '\u{85}'
    ||| c == '\u{a0}'
    ||| c == '\u{1680}'
    ||| ('\u{2000}' <= c && c <= '\u{200a}')
    ||| c == '\u{2028}'
    ||| c == '\u{2029}'
    ||| c == '\u{202f}'
    ||| c == '\u{205f}'
    ||| c == '\u{3000}'
}

/// Whether the text is entirely white space (an empty text is).
pub open spec fn all_space(s: Seq<char>) -> bool {
    forall|i: int| 0 <= i < s.len() ==> is_space_char(s[i])
}

/// Checks a character for the Unicode white-space property.
pub fn is_space_char_x(c: char) -> (r: bool)
    ensures
        r == is_space_char(c),
{
    c == ' ' || c == '\t' || c == '\n' || c == '\r' || c == '\u{b}' || c == '\u{c}'
        || c == '\u{85}' || c == '\u{a0}' || c == '\u{1680}'
        || ('\u{2000}' <= c && c <= '\u{200a}') || c == '\u{2028}' || c == '\u{2029}'
        || c == '\u{202f}' || c == '\u{205f}' || c == '\u{3000}'
}

/// Checks whether the text is entirely white space.
pub fn all_space_x(v: &Vec<char>) -> (r: bool)
    ensures
        r == all_space(v@),
{
    let mut i: usize = 0;
    while i < v.len()
        invariant
            i <= v.len(),
            forall|k: int| 0 <= k < i ==> is_space_char(v@[k]),
        decreases v.len() - i,
    {
        if !is_space_char_x(v[i]) {
            return false;
        }
        i = i + 1;
    }
    true
}

/// Whether a child matters for default-value extraction: white-space
/// text and empty expression containers (comments) do not.
pub open spec fn is_meaningful(c: Child) -> bool {
    match c {
        Child::Text { value, .. } => !all_space(value@),
        Child::Container(ct) => ct.expr is Some,
        _ => true,
    }
}

/// Checks whether a child matters for default-value extraction.
pub fn is_meaningful_x(c: &Child) -> (r: bool)
    ensures
        r == is_meaningful(*c),
{
    match c {
        Child::Text { value, .. } => !all_space_x(value),
        Child::Container(ct) => ct.expr.is_some(),
        _ => true,
    }
}

/// The meaningful children, in order.
pub open spec fn meaningful_of(s: Seq<Child>) -> Seq<Child>
    decreases s.len(),
{
    if s.len() == 0 {
        Seq::empty()
    } else {
        meaningful_of(s.subrange(0, s.len() - 1)) + (if is_meaningful(s[s.len() - 1]) {
            seq![s[s.len() - 1]]
        } else {
            Seq::empty()
        })
    }
}

/// The marker's default value: the single meaningful child when it is
/// text, or when it is a container whose expression the static-string
/// grammar accepts; nothing otherwise.
pub open spec fn spec_default(e: Element) -> Option<Seq<char>> {
    let m = meaningful_of(e.children@);
    if m.len() == 1 {
        match m[0] {
            Child::Text { value, .. } => Some(value@),
            Child::Container(c) => container_as_str(c),
            _ => None,
        }
    } else {
        None
    }
}

/// The diagnostics default-value extraction produces: an error when the
/// single meaningful child is neither text nor a container, an error
/// when there are two or more meaningful children, nothing otherwise.
/// A container whose expression the grammar rejects is allowed
/// silently.
pub open spec fn spec_default_diags(e: Element) -> Seq<Diagnostic> {
    let m = meaningful_of(e.children@);
    if m.len() == 1 {
        match m[0] {
            Child::Text { .. } => Seq::empty(),
            Child::Container(_) => Seq::empty(),
            _ => seq![Diagnostic { kind: DiagKind::MalformedChildShape, span: child_span(m[0]) }],
        }
    } else if m.len() >= 2 {
        seq![Diagnostic { kind: DiagKind::TooManyChildren, span: e.span }]
    } else {
        Seq::empty()
    }
}

/// Extracts the marker's default value from its children, reporting
/// malformed child shapes.
pub fn default_value(e: &Element, diags: &mut Vec<Diagnostic>) -> (r: Option<Vec<char>>)
    ensures
        chars_vw(r) == spec_default(*e),
        final(diags)@ == old(diags)@ + spec_default_diags(*e),
{
    let ghost all = e.children@;
    let mut count: usize = 0;
    let mut first: usize = 0;
    let mut i: usize = 0;
    proof {
        assert(all.subrange(0, 0) =~= Seq::<Child>::empty());
    }
    while i < e.children.len()
        invariant
            i <= e.children.len(),
            all == e.children@,
            count <= i,
            count == meaningful_of(all.subrange(0, i as int)).len(),
            count > 0 ==> {
                &&& first < i
                &&& is_meaningful(all[first as int])
                &&& meaningful_of(all.subrange(0, i as int))[0] == all[first as int]
            },
        decreases e.children.len() - i,
    {
        let ghost pre = all.subrange(0, i as int);
        proof {
            assert(all.subrange(0, i + 1).subrange(0, i as int) =~= pre);
            assert(all.subrange(0, i + 1)[i as int] == all[i as int]);
        }
        if is_meaningful_x(&e.children[i]) {
            if count == 0 {
                first = i;
            }
            proof {
                assert(meaningful_of(all.subrange(0, i + 1)) =~= meaningful_of(pre) + seq![
                    all[i as int],
                ]);
            }
            count = count + 1;
        } else {
            proof {
                assert(meaningful_of(all.subrange(0, i + 1)) =~= meaningful_of(pre));
            }
        }
        i = i + 1;
    }
    proof {
        assert(all.subrange(0, all.len() as int) =~= all);
    }
    let ghost m = meaningful_of(all);
    if count == 0 {
        proof {
            assert(diags@ =~= old(diags)@ + spec_default_diags(*e));
        }
        None
    } else if count == 1 {
        match &e.children[first] {
            Child::Text { value, .. } => {
                proof {
                    assert(diags@ =~= old(diags)@ + spec_default_diags(*e));
                }
                Some(copy_chars(value))
            },
            Child::Container(c) => {
                proof {
                    assert(diags@ =~= old(diags)@ + spec_default_diags(*e));
                }
                c.as_str_expr()
            },
            Child::Element(el) => {
                let d = Diagnostic { kind: DiagKind::MalformedChildShape, span: el.span };
                diags.push(d);
                proof {
                    assert(diags@ =~= old(diags)@ + spec_default_diags(*e));
                }
                None
            },
            Child::Fragment { span, .. } => {
                let d = Diagnostic { kind: DiagKind::MalformedChildShape, span: *span };
                diags.push(d);
                proof {
                    assert(diags@ =~= old(diags)@ + spec_default_diags(*e));
                }
                None
            },
            Child::Spread { span, .. } => {
                let d = Diagnostic { kind: DiagKind::MalformedChildShape, span: *span };
                diags.push(d);
                proof {
                    assert(diags@ =~= old(diags)@ + spec_default_diags(*e));
                }
                None
            },
        }
    } else {
        let d = Diagnostic { kind: DiagKind::TooManyChildren, span: e.span };
        diags.push(d);
        proof {
            assert(diags@ =~= old(diags)@ + spec_default_diags(*e));
        }
        None
    }
}

/// The record a marker element yields, when its identifier is
/// statically known.
pub open spec fn spec_extract(e: Element) -> Option<NodeV> {
    match spec_uri(e) {
        Some(u) => Some(NodeV { uri: u, value: spec_default(e) }),
        None => None,
    }
}

/// Everything extraction reports at one marker element: the identifier
/// diagnostics, then the child diagnostics. The children are examined
/// even when the identifier is missing or dynamic.
pub open spec fn spec_extract_diags(e: Element) -> Seq<Diagnostic> {
    spec_uri_diags(e) + spec_default_diags(e)
}

impl Node {
    /// Extractor: evaluates a recognized marker element to a record,
    /// reporting what prevented or degraded extraction.
    pub fn extract(e: &Element, diags: &mut Vec<Diagnostic>) -> (r: Option<Node>)
        ensures
            opt_node_vw(r) == spec_extract(*e),
            final(diags)@ == old(diags)@ + spec_extract_diags(*e),
    {
        let uri = uri_attr(e, diags);
        let value = default_value(e, diags);
        proof {
            assert(diags@ =~= old(diags)@ + spec_extract_diags(*e));
        }
        match uri {
            Some(u) => Some(Node { uri: u, value }),
            None => None,
        }
    }
}

} // verus!
