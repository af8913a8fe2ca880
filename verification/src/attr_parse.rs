//! Reading meta items out of the tokens of an attribute.
//!
//! The grammar is stated by the `parse_*` specification functions over
//! sequences of token trees; the executable functions are proved to follow
//! it.

use crate::ast::{
    Delimiter, Ident, LitKind, MetaItem, MetaItemKind, MetaItemLit, NestedMetaItem, Path,
    PathSegment, Symbol, Token, TokenKind, TokenTree,
};
use crate::job::Span;
use vstd::prelude::*;

verus! {

/// A path as a value: its place and its segments.
pub struct PathView {
    pub span: Span,
    pub segments: Seq<PathSegment>,
}

/// What follows the path of a meta item, as a value.
pub enum MetaItemKindView {
    Word,
    List(Seq<NestedMetaItemView>),
    NameValue(MetaItemLit),
}

/// A meta item as a value.
pub struct MetaItemView {
    pub path: PathView,
    pub kind: MetaItemKindView,
    pub span: Span,
}

/// An element of the list of a meta item, as a value.
pub enum NestedMetaItemView {
    MetaItem(MetaItemView),
    Lit(MetaItemLit),
}

impl View for Path {
    type V = PathView;

    open spec fn view(&self) -> PathView {
        PathView { span: self.span, segments: self.segments@ }
    }
}

/// The value of a meta item kind.
pub open spec fn kind_view(kind: &MetaItemKind) -> MetaItemKindView
    decreases kind,
{
    match kind {
        MetaItemKind::Word => MetaItemKindView::Word,
        MetaItemKind::List(list) => MetaItemKindView::List(list_view(list@, list@.len())),
        MetaItemKind::NameValue(lit) => MetaItemKindView::NameValue(*lit),
    }
}

/// The values of the first `n` elements of a list.
pub open spec fn list_view(list: Seq<NestedMetaItem>, n: nat) -> Seq<NestedMetaItemView>
    decreases list, n,
{
    if n == 0 || n > list.len() {
        Seq::empty()
    } else {
        list_view(list, (n - 1) as nat).push(nested_view(&list[n - 1]))
    }
}

/// The value of an element of a list.
pub open spec fn nested_view(item: &NestedMetaItem) -> NestedMetaItemView
    decreases item,
{
    match item {
        NestedMetaItem::MetaItem(meta) => NestedMetaItemView::MetaItem(meta_view(meta)),
        NestedMetaItem::Lit(lit) => NestedMetaItemView::Lit(*lit),
    }
}

/// The value of a meta item.
pub open spec fn meta_view(item: &MetaItem) -> MetaItemView
    decreases item,
{
    MetaItemView { path: item.path@, kind: kind_view(&item.kind), span: item.span }
}

/// The literal that a token stands for: a literal token whose text has a
/// value, or one of the words `true` and `false`.
pub open spec fn lit_of_token(token: Token) -> Option<MetaItemLit> {
    match token.kind {
        TokenKind::Ident(name) => if name == crate::ast::true_symbol() {
            Some(MetaItemLit { symbol: name, kind: LitKind::Bool(true), span: token.span })
        } else if name == crate::ast::false_symbol() {
            Some(MetaItemLit { symbol: name, kind: LitKind::Bool(false), span: token.span })
        } else {
            None
        },
        TokenKind::Literal(symbol, kind) => if kind is Invalid {
            None
        } else {
            Some(MetaItemLit { symbol, kind, span: token.span })
        },
        _ => None,
    }
}

/// Whether a token tree is the token `::`.
pub open spec fn is_mod_sep(tree: TokenTree) -> bool {
    tree matches TokenTree::Token(token) && token.kind is ModSep
}

/// Whether a token tree is the token `,`.
pub open spec fn is_comma(tree: TokenTree) -> bool {
    tree matches TokenTree::Token(token) && token.kind is Comma
}

/// The name and place of a token tree that is a name.
pub open spec fn ident_of(tree: TokenTree) -> Option<Ident> {
    match tree {
        TokenTree::Token(token) => match token.kind {
            TokenKind::Ident(name) => Some(Ident { name, span: token.span }),
            _ => None,
        },
        _ => None,
    }
}

/// Where a token tree ends: a token at the end of its span, and a
/// bracketed sequence at the end of the span from its opening to its
/// closing bracket.
pub open spec fn tree_hi(tree: TokenTree) -> u32 {
    match tree {
        TokenTree::Token(token) => token.span.hi,
        TokenTree::Delimited(dspan, _, _) => crate::job::span_between(
            dspan.open.lo,
            dspan.close.hi,
        ).hi,
    }
}

/// The rest of a path after a `::`: a name, and then either the end of the
/// path or another `::` and more. `segments` are the segments read so far
/// and `first` is the place of the first token of the path. Yields the
/// path and the position after it.
pub open spec fn parse_segments(
    tokens: Seq<TokenTree>,
    pos: int,
    segments: Seq<PathSegment>,
    first: Span,
) -> Option<(PathView, int)>
    decreases tokens.len() - pos,
{
    if 0 <= pos < tokens.len() {
        match ident_of(tokens[pos]) {
            Some(ident) => {
                let longer = segments.push(PathSegment { ident });
                if pos + 1 < tokens.len() && is_mod_sep(tokens[pos + 1]) {
                    parse_segments(tokens, pos + 2, longer, first)
                } else {
                    Some(
                        (
                            PathView {
                                span: crate::job::span_between(first.lo, ident.span.hi),
                                segments: longer,
                            },
                            pos + 1,
                        ),
                    )
                }
            },
            None => None,
        }
    } else {
        None
    }
}

/// A path at `pos`: a single name, or names separated by `::`, with or
/// without a leading `::`. Yields the path and the position after it.
pub open spec fn parse_path(tokens: Seq<TokenTree>, pos: int) -> Option<(PathView, int)> {
    if 0 <= pos < tokens.len() {
        match tokens[pos] {
            TokenTree::Token(token) => match token.kind {
                TokenKind::Ident(name) => {
                    let segment = PathSegment { ident: Ident { name, span: token.span } };
                    if pos + 1 < tokens.len() && is_mod_sep(tokens[pos + 1]) {
                        parse_segments(tokens, pos + 2, seq![segment], token.span)
                    } else {
                        Some((PathView { span: token.span, segments: seq![segment] }, pos + 1))
                    }
                },
                TokenKind::ModSep => {
                    let root = PathSegment {
                        ident: Ident { name: crate::ast::path_root_symbol(), span: token.span },
                    };
                    parse_segments(tokens, pos + 1, seq![root], token.span)
                },
                _ => None,
            },
            _ => None,
        }
    } else {
        None
    }
}

/// The literal after an `=`: that of the token at `pos`, looked for inside
/// unwritten brackets where the tree at `pos` is such a pair.
pub open spec fn parse_name_value(tokens: Seq<TokenTree>, pos: int) -> Option<MetaItemLit>
    decreases tokens,
{
    if 0 <= pos < tokens.len() {
        match tokens[pos] {
            TokenTree::Delimited(_, Delimiter::Invisible, inner) => parse_name_value(inner@, 0),
            TokenTree::Token(token) => lit_of_token(token),
            _ => None,
        }
    } else {
        None
    }
}

/// What follows the path of a meta item at `pos`: a parenthesised list, an
/// `=` and a literal, or nothing. Yields the kind and the position after
/// it.
pub open spec fn parse_kind(tokens: Seq<TokenTree>, pos: int) -> Option<(MetaItemKindView, int)>
    decreases tokens, tokens.len() - pos, 0nat,
{
    if 0 <= pos < tokens.len() {
        match tokens[pos] {
            TokenTree::Delimited(_, Delimiter::Parenthesis, inner) => match parse_list(
                inner@,
                0,
                Seq::empty(),
            ) {
                Some(items) => Some((MetaItemKindView::List(items), pos + 1)),
                None => None,
            },
            TokenTree::Delimited(..) => None,
            TokenTree::Token(token) => if token.kind is Eq {
                match parse_name_value(tokens, pos + 1) {
                    Some(lit) => Some((MetaItemKindView::NameValue(lit), pos + 2)),
                    None => None,
                }
            } else {
                Some((MetaItemKindView::Word, pos))
            },
        }
    } else {
        Some((MetaItemKindView::Word, pos))
    }
}

/// A meta item at `pos`: a path and what follows it. The item reaches
/// from the start of the path to the end of its literal or of its list,
/// or else to the end of the path. Yields the item and the position after
/// it.
pub open spec fn parse_meta_item(tokens: Seq<TokenTree>, pos: int) -> Option<(MetaItemView, int)>
    decreases tokens, tokens.len() - pos, 1nat,
{
    match parse_path(tokens, pos) {
        Some((path, after_path)) => if pos < after_path <= tokens.len() {
            match parse_kind(tokens, after_path) {
                Some((kind, after)) => {
                    let hi = match kind {
                        MetaItemKindView::NameValue(lit) => lit.span.hi,
                        MetaItemKindView::List(_) => if after_path < tokens.len() {
                            tree_hi(tokens[after_path])
                        } else {
                            path.span.hi
                        },
                        MetaItemKindView::Word => path.span.hi,
                    };
                    Some(
                        (
                            MetaItemView {
                                path,
                                kind,
                                span: crate::job::span_between(path.span.lo, hi),
                            },
                            after,
                        ),
                    )
                },
                None => None,
            }
        } else {
            None
        },
        None => None,
    }
}

/// An element of a list at `pos`: a literal, the first element inside a
/// pair of unwritten brackets, or a meta item. Yields the element and the
/// position after it.
pub open spec fn parse_nested(tokens: Seq<TokenTree>, pos: int) -> Option<(NestedMetaItemView, int)>
    decreases tokens, tokens.len() - pos, 2nat,
{
    if 0 <= pos < tokens.len() {
        match tokens[pos] {
            TokenTree::Token(token) => match lit_of_token(token) {
                Some(lit) => Some((NestedMetaItemView::Lit(lit), pos + 1)),
                None => match parse_meta_item(tokens, pos) {
                    Some((item, after)) => Some((NestedMetaItemView::MetaItem(item), after)),
                    None => None,
                },
            },
            TokenTree::Delimited(_, Delimiter::Invisible, inner) => match parse_nested(inner@, 0) {
                Some((item, _)) => Some((item, pos + 1)),
                None => None,
            },
            TokenTree::Delimited(..) => None,
        }
    } else {
        None
    }
}

/// The elements of a list from `pos` on, after those in `items`: elements
/// separated by commas, with or without a comma after the last.
pub open spec fn parse_list(
    tokens: Seq<TokenTree>,
    pos: int,
    items: Seq<NestedMetaItemView>,
) -> Option<Seq<NestedMetaItemView>>
    decreases tokens, tokens.len() - pos, 3nat,
{
    if 0 <= pos < tokens.len() {
        match parse_nested(tokens, pos) {
            Some((item, after)) => if after <= pos {
                None
            } else if after >= tokens.len() {
                Some(items.push(item))
            } else if is_comma(tokens[after]) {
                parse_list(tokens, after + 1, items.push(item))
            } else {
                None
            },
            None => None,
        }
    } else {
        Some(items)
    }
}

/// The values of a prefix of a list depend on that prefix alone.
pub proof fn lemma_list_view_prefix(a: Seq<NestedMetaItem>, b: Seq<NestedMetaItem>, n: nat)
    requires
        n <= a.len(),
        n <= b.len(),
        forall|i: int| 0 <= i < n ==> a[i] == b[i],
    ensures
        list_view(a, n) == list_view(b, n),
        list_view(a, n).len() == n,
    decreases n,
{
    if n > 0 {
        lemma_list_view_prefix(a, b, (n - 1) as nat);
    }
}

impl MetaItemLit {
    /// The literal that a token stands for, if it stands for one.
    pub fn from_token(token: &Token) -> (lit: Option<MetaItemLit>)
        ensures
            lit == lit_of_token(*token),
    {
        match token.kind {
            TokenKind::Ident(name) => {
                if name.0 == 2 {
                    Some(MetaItemLit { symbol: name, kind: LitKind::Bool(true), span: token.span })
                } else if name.0 == 3 {
                    Some(MetaItemLit { symbol: name, kind: LitKind::Bool(false), span: token.span })
                } else {
                    None
                }
            },
            TokenKind::Literal(symbol, kind) => match kind {
                LitKind::Invalid => None,
                _ => Some(MetaItemLit { symbol, kind, span: token.span }),
            },
            _ => None,
        }
    }
}

/// Whether the tree at `pos` is the token `::`.
fn at_mod_sep(tokens: &Vec<TokenTree>, pos: usize) -> (is: bool)
    ensures
        is == (pos < tokens@.len() && is_mod_sep(tokens@[pos as int])),
{
    if pos < tokens.len() {
        match &tokens[pos] {
            TokenTree::Token(token) => match token.kind {
                TokenKind::ModSep => true,
                _ => false,
            },
            _ => false,
        }
    } else {
        false
    }
}

/// The name at `pos`, if the tree there is a name.
fn ident_at(tokens: &Vec<TokenTree>, pos: usize) -> (ident: Option<Ident>)
    ensures
        ident == if pos < tokens@.len() {
            ident_of(tokens@[pos as int])
        } else {
            None
        },
{
    if pos < tokens.len() {
        match &tokens[pos] {
            TokenTree::Token(token) => match token.kind {
                TokenKind::Ident(name) => Some(Ident { name, span: token.span }),
                _ => None,
            },
            _ => None,
        }
    } else {
        None
    }
}

impl Path {
    /// Reads the rest of a path after a `::`.
    fn segments_from_tokens(
        tokens: &Vec<TokenTree>,
        start: usize,
        given: Vec<PathSegment>,
        first: Span,
    ) -> (read: Option<(Path, usize)>)
        ensures
            match parse_segments(tokens@, start as int, given@, first) {
                Some((path, after)) => read is Some && (read->0).0@ == path && (read->0).1 == after
                    && start < after <= tokens@.len(),
                None => read is None,
            },
    {
        let ghost given_segments = given@;
        let mut segments = given;
        let mut pos = start;
        loop
            invariant
                parse_segments(tokens@, pos as int, segments@, first) == parse_segments(
                    tokens@,
                    start as int,
                    given_segments,
                    first,
                ),
                start <= pos,
                given_segments == given@,
            decreases tokens@.len() - pos,
        {
            let ghost before = segments@;
            let ghost whole = parse_segments(tokens@, pos as int, before, first);
            match ident_at(tokens, pos) {
                Some(ident) => {
                    assert(pos < tokens.len());
                    segments.push(PathSegment { ident });
                    if at_mod_sep(tokens, pos + 1) {
                        assert(whole == parse_segments(tokens@, pos + 2, segments@, first));
                        pos = pos + 2;
                    } else {
                        let span = first.with_hi(ident.span.hi);
                        assert(whole == Some((PathView { span, segments: segments@ }, pos + 1)));
                        return Some((Path { span, segments }, pos + 1));
                    }
                },
                None => {
                    assert(whole is None);
                    return None;
                },
            }
        }
    }

    /// Reads the path at `pos`, and says where it ends.
    pub fn from_tokens(tokens: &Vec<TokenTree>, pos: usize) -> (read: Option<(Path, usize)>)
        ensures
            match parse_path(tokens@, pos as int) {
                Some((path, after)) => read is Some && (read->0).0@ == path && (read->0).1 == after
                    && pos < after <= tokens@.len(),
                None => read is None,
            },
    {
        if pos >= tokens.len() {
            return None;
        }
        match &tokens[pos] {
            TokenTree::Token(token) => match token.kind {
                TokenKind::Ident(name) => {
                    let mut segments: Vec<PathSegment> = Vec::new();
                    segments.push(PathSegment { ident: Ident { name, span: token.span } });
                    assert(segments@ =~= seq![PathSegment { ident: Ident { name, span: token.span } }]);
                    if at_mod_sep(tokens, pos + 1) {
                        Path::segments_from_tokens(tokens, pos + 2, segments, token.span)
                    } else {
                        Some((Path { span: token.span, segments }, pos + 1))
                    }
                },
                TokenKind::ModSep => {
                    let mut segments: Vec<PathSegment> = Vec::new();
                    segments.push(
                        PathSegment { ident: Ident { name: Symbol::path_root(), span: token.span } },
                    );
                    assert(segments@ =~= seq![
                        PathSegment {
                            ident: Ident { name: crate::ast::path_root_symbol(), span: token.span },
                        },
                    ]);
                    Path::segments_from_tokens(tokens, pos + 1, segments, token.span)
                },
                _ => None,
            },
            _ => None,
        }
    }
}

/// Where the tree at `pos` ends.
fn hi_at(tokens: &Vec<TokenTree>, pos: usize) -> (hi: u32)
    requires
        pos < tokens@.len(),
    ensures
        hi == tree_hi(tokens@[pos as int]),
{
    match &tokens[pos] {
        TokenTree::Token(token) => token.span.hi,
        TokenTree::Delimited(dspan, _, _) => dspan.open.with_hi(dspan.close.hi).hi,
    }
}

impl MetaItemKind {
    /// Reads the literal after an `=`.
    pub fn name_value_from_tokens(tokens: &Vec<TokenTree>, pos: usize) -> (kind: Option<
        MetaItemKind,
    >)
        ensures
            match parse_name_value(tokens@, pos as int) {
                Some(lit) => kind == Some(MetaItemKind::NameValue(lit)),
                None => kind is None,
            },
        decreases tokens@,
    {
        if pos >= tokens.len() {
            return None;
        }
        match &tokens[pos] {
            TokenTree::Delimited(_, Delimiter::Invisible, inner_tokens) => {
                MetaItemKind::name_value_from_tokens(inner_tokens, 0)
            },
            TokenTree::Token(token) => match MetaItemLit::from_token(token) {
                Some(lit) => Some(MetaItemKind::NameValue(lit)),
                None => None,
            },
            _ => None,
        }
    }

    /// Reads the elements of a list out of the tokens between its brackets.
    pub fn list_from_tokens(tokens: &Vec<TokenTree>) -> (kind: Option<MetaItemKind>)
        ensures
            match parse_list(tokens@, 0, Seq::empty()) {
                Some(items) => kind is Some && kind_view(&kind->0) == MetaItemKindView::List(items),
                None => kind is None,
            },
        decreases tokens@, tokens@.len(), 4nat,
    {
        let mut result: Vec<NestedMetaItem> = Vec::new();
        let mut pos: usize = 0;
        while pos < tokens.len()
            invariant
                pos <= tokens@.len(),
                parse_list(tokens@, pos as int, list_view(result@, result@.len())) == parse_list(
                    tokens@,
                    0,
                    Seq::empty(),
                ),
            decreases tokens@.len() - pos,
        {
            let ghost before = result@;
            let ghost items = list_view(before, before.len());
            let ghost whole = parse_list(tokens@, pos as int, items);
            match NestedMetaItem::from_tokens(tokens, pos) {
                Some((item, after)) => {
                    let ghost item_view = nested_view(&item);
                    result.push(item);
                    proof {
                        lemma_list_view_prefix(before, result@, before.len());
                        assert(list_view(result@, result@.len()) == items.push(item_view));
                    }
                    if after >= tokens.len() {
                        assert(whole == Some(items.push(item_view)));
                        pos = after;
                    } else {
                        match &tokens[after] {
                            TokenTree::Token(token) => match token.kind {
                                TokenKind::Comma => {
                                    pos = after + 1;
                                },
                                _ => {
                                    assert(whole is None);
                                    return None;
                                },
                            },
                            _ => {
                                assert(whole is None);
                                return None;
                            },
                        }
                    }
                },
                None => {
                    assert(whole is None);
                    return None;
                },
            }
        }
        let kind = MetaItemKind::List(result);
        assert(kind_view(&kind) == MetaItemKindView::List(list_view(result@, result@.len())));
        Some(kind)
    }

    /// Reads what follows the path of a meta item at `pos`, and says where
    /// it ends.
    pub fn from_tokens(tokens: &Vec<TokenTree>, pos: usize) -> (read: Option<
        (MetaItemKind, usize),
    >)
        requires
            pos <= tokens@.len(),
        ensures
            match parse_kind(tokens@, pos as int) {
                Some((kind, after)) => read is Some && kind_view(&(read->0).0) == kind && (read->0).1
                    == after && pos <= after <= tokens@.len(),
                None => read is None,
            },
        decreases tokens@, tokens@.len() - pos, 0nat,
    {
        if pos >= tokens.len() {
            return Some((MetaItemKind::Word, pos));
        }
        match &tokens[pos] {
            TokenTree::Delimited(_, Delimiter::Parenthesis, inner_tokens) => {
                match MetaItemKind::list_from_tokens(inner_tokens) {
                    Some(kind) => Some((kind, pos + 1)),
                    None => None,
                }
            },
            TokenTree::Delimited(..) => None,
            TokenTree::Token(token) => match token.kind {
                TokenKind::Eq => match MetaItemKind::name_value_from_tokens(tokens, pos + 1) {
                    Some(kind) => {
                        assert(pos + 1 < tokens@.len());
                        Some((kind, pos + 2))
                    },
                    None => None,
                },
                _ => Some((MetaItemKind::Word, pos)),
            },
        }
    }
}

impl MetaItem {
    /// Reads the meta item at `pos`, and says where it ends.
    pub fn from_tokens(tokens: &Vec<TokenTree>, pos: usize) -> (read: Option<(MetaItem, usize)>)
        ensures
            match parse_meta_item(tokens@, pos as int) {
                Some((item, after)) => read is Some && meta_view(&(read->0).0) == item && (read->0).1
                    == after && pos < after <= tokens@.len(),
                None => read is None,
            },
        decreases tokens@, tokens@.len() - pos, 1nat,
    {
        let (path, after_path) = match Path::from_tokens(tokens, pos) {
            Some(read) => read,
            None => {
                return None;
            },
        };
        let list_closing_paren_pos = if after_path < tokens.len() {
            Some(hi_at(tokens, after_path))
        } else {
            None
        };
        let (kind, after) = match MetaItemKind::from_tokens(tokens, after_path) {
            Some(read) => read,
            None => {
                return None;
            },
        };
        let hi = match &kind {
            MetaItemKind::NameValue(lit) => lit.span.hi,
            MetaItemKind::List(..) => match list_closing_paren_pos {
                Some(hi) => hi,
                None => path.span.hi,
            },
            _ => path.span.hi,
        };
        let span = path.span.with_hi(hi);
        Some((MetaItem { path, kind, span }, after))
    }
}

impl NestedMetaItem {
    /// Reads the list element at `pos`, and says where it ends.
    pub fn from_tokens(tokens: &Vec<TokenTree>, pos: usize) -> (read: Option<
        (NestedMetaItem, usize),
    >)
        ensures
            match parse_nested(tokens@, pos as int) {
                Some((item, after)) => read is Some && nested_view(&(read->0).0) == item && (
                read->0).1 == after && pos < after <= tokens@.len(),
                None => read is None,
            },
        decreases tokens@, tokens@.len() - pos, 2nat,
    {
        if pos >= tokens.len() {
            return None;
        }
        match &tokens[pos] {
            TokenTree::Token(token) => match MetaItemLit::from_token(token) {
                Some(lit) => Some((NestedMetaItem::Lit(lit), pos + 1)),
                None => match MetaItem::from_tokens(tokens, pos) {
                    Some((item, after)) => Some((NestedMetaItem::MetaItem(item), after)),
                    None => None,
                },
            },
            TokenTree::Delimited(_, Delimiter::Invisible, inner_tokens) => {
                match NestedMetaItem::from_tokens(inner_tokens, 0) {
                    Some((item, _)) => Some((item, pos + 1)),
                    None => None,
                }
            },
            TokenTree::Delimited(..) => None,
        }
    }
}

} // verus!
