//! Functions dealing with attributes and meta items.

use crate::ast::{
    doc_symbol, AttrArgs, AttrArgsEq, AttrId, AttrItem, AttrKind, AttrStyle, Attribute,
    CommentKind, DelimArgs, DelimSpan, Delimiter, Ident, LitKind, MacDelimiter, MetaItem,
    MetaItemKind, MetaItemLit, NestedMetaItem, NormalAttr, Path, PathSegment, StrStyle, Symbol,
    Token, TokenKind, TokenTree,
};
use crate::attr_parse::{
    kind_view, lit_of_token, meta_view, parse_list, MetaItemKindView, MetaItemView,
    NestedMetaItemView,
};
use crate::job::Span;
use vstd::prelude::*;

verus! {

/// The name of a path of a single segment.
pub open spec fn single_name(path: &Path) -> Option<Ident> {
    if path.segments@.len() == 1 {
        Some(path.segments@[0].ident)
    } else {
        None
    }
}

/// The string that a meta item kind gives as its value: that of a
/// name-value pair whose literal is a string.
pub open spec fn kind_value_str(kind: &MetaItemKind) -> Option<Symbol> {
    match kind {
        MetaItemKind::NameValue(lit) => match lit.kind {
            LitKind::Str(s, _) => Some(s),
            _ => None,
        },
        _ => None,
    }
}

impl Path {
    /// Whether the path is the single name `name`.
    pub fn is_name(&self, name: Symbol) -> (same: bool)
        ensures
            same == (single_name(self) matches Some(ident) && ident.name == name),
    {
        self.segments.len() == 1 && self.segments[0].ident.name.0 == name.0
    }

    /// The name of the path where it has a single segment.
    pub fn single_ident(&self) -> (ident: Option<Ident>)
        ensures
            ident == single_name(self),
    {
        if self.segments.len() == 1 {
            Some(self.segments[0].ident)
        } else {
            None
        }
    }
}

impl MetaItemKind {
    /// The string value of a name-value pair.
    pub fn value_str(&self) -> (value: Option<Symbol>)
        ensures
            value == kind_value_str(self),
    {
        match self {
            MetaItemKind::NameValue(v) => match v.kind {
                LitKind::Str(s, _) => Some(s),
                _ => None,
            },
            _ => None,
        }
    }
}

impl MetaItem {
    /// For a single-segment meta item, returns its name; otherwise, returns
    /// `None`.
    pub fn ident(&self) -> (ident: Option<Ident>)
        ensures
            ident == single_name(&self.path),
    {
        self.path.single_ident()
    }

    /// The name of a single-segment meta item, and else the empty symbol.
    pub fn name_or_empty(&self) -> (name: Symbol)
        ensures
            name == match single_name(&self.path) {
                Some(ident) => ident.name,
                None => crate::ast::empty_symbol(),
            },
    {
        match self.ident() {
            Some(ident) => ident.name,
            None => Symbol(0),
        }
    }

    /// The literal of a name-value pair, as the `"value"` of
    /// `#[attribute(name = "value")]`.
    pub fn name_value_literal(&self) -> (lit: Option<&MetaItemLit>)
        ensures
            match self.kind {
                MetaItemKind::NameValue(v) => lit == Some(&v),
                _ => lit is None,
            },
    {
        match &self.kind {
            MetaItemKind::NameValue(v) => Some(v),
            _ => None,
        }
    }

    /// The string value of a name-value pair.
    pub fn value_str(&self) -> (value: Option<Symbol>)
        ensures
            value == kind_value_str(&self.kind),
    {
        self.kind.value_str()
    }

    /// The elements of a list.
    pub fn meta_item_list(&self) -> (list: Option<&[NestedMetaItem]>)
        ensures
            match self.kind {
                MetaItemKind::List(l) => list is Some && list->0@ == l@,
                _ => list is None,
            },
    {
        match &self.kind {
            MetaItemKind::List(l) => Some(l.as_slice()),
            _ => None,
        }
    }

    /// Whether nothing follows the path.
    pub fn is_word(&self) -> (word: bool)
        ensures
            word == (self.kind is Word),
    {
        match &self.kind {
            MetaItemKind::Word => true,
            _ => false,
        }
    }

    /// Whether the path is the single name `name`.
    pub fn has_name(&self, name: Symbol) -> (same: bool)
        ensures
            same == (single_name(&self.path) matches Some(ident) && ident.name == name),
    {
        self.path.is_name(name)
    }

    /// The place of the literal of a name-value pair, as that of `"foo"`
    /// in `#[doc(alias = "foo")]`.
    pub fn name_value_literal_span(&self) -> (span: Option<Span>)
        ensures
            span == match self.kind {
                MetaItemKind::NameValue(v) => Some(v.span),
                _ => None,
            },
    {
        match self.name_value_literal() {
            Some(lit) => Some(lit.span),
            None => None,
        }
    }
}

impl NestedMetaItem {
    /// Returns the `MetaItem` if `self` is a `NestedMetaItem::MetaItem`.
    pub fn meta_item(&self) -> (item: Option<&MetaItem>)
        ensures
            match self {
                NestedMetaItem::MetaItem(inner) => item == Some(inner),
                NestedMetaItem::Lit(_) => item is None,
            },
    {
        match self {
            NestedMetaItem::MetaItem(item) => Some(item),
            _ => None,
        }
    }

    /// Returns the `MetaItemLit` if `self` is a `NestedMetaItem::Lit`.
    pub fn lit(&self) -> (lit: Option<&MetaItemLit>)
        ensures
            match self {
                NestedMetaItem::Lit(inner) => lit == Some(inner),
                NestedMetaItem::MetaItem(_) => lit is None,
            },
    {
        match self {
            NestedMetaItem::Lit(lit) => Some(lit),
            _ => None,
        }
    }

    /// Returns `true` if this list item is a MetaItem with a name of `name`.
    pub fn has_name(&self, name: Symbol) -> (same: bool)
        ensures
            same == (self matches NestedMetaItem::MetaItem(item) && single_name(&item.path) matches Some(
                ident,
            ) && ident.name == name),
    {
        match self.meta_item() {
            Some(meta_item) => meta_item.has_name(name),
            None => false,
        }
    }

    /// For a single-segment meta item, returns its name; otherwise, returns
    /// `None`.
    pub fn ident(&self) -> (ident: Option<Ident>)
        ensures
            ident == match self {
                NestedMetaItem::MetaItem(item) => single_name(&item.path),
                NestedMetaItem::Lit(_) => None,
            },
    {
        match self.meta_item() {
            Some(meta_item) => meta_item.ident(),
            None => None,
        }
    }

    /// Gets the string value if `self` is a `MetaItem` and the `MetaItem` is
    /// a name-value pair with a string, otherwise `None`.
    pub fn value_str(&self) -> (value: Option<Symbol>)
        ensures
            value == match self {
                NestedMetaItem::MetaItem(item) => kind_value_str(&item.kind),
                NestedMetaItem::Lit(_) => None,
            },
    {
        match self.meta_item() {
            Some(meta_item) => meta_item.value_str(),
            None => None,
        }
    }

    /// Gets a list of inner meta items from a list `MetaItem` type.
    pub fn meta_item_list(&self) -> (list: Option<&[NestedMetaItem]>)
        ensures
            match self {
                NestedMetaItem::MetaItem(MetaItem { kind: MetaItemKind::List(l), .. }) => list is Some
                    && list->0@ == l@,
                _ => list is None,
            },
    {
        match self.meta_item() {
            Some(meta_item) => meta_item.meta_item_list(),
            None => None,
        }
    }

    /// Returns `true` if the variant is `MetaItem`.
    pub fn is_meta_item(&self) -> (is: bool)
        ensures
            is == (self is MetaItem),
    {
        self.meta_item().is_some()
    }

    /// Returns `true` if `self` is a `MetaItem` and the meta item is a word.
    pub fn is_word(&self) -> (word: bool)
        ensures
            word == (self matches NestedMetaItem::MetaItem(item) && item.kind is Word),
    {
        match self.meta_item() {
            Some(meta_item) => meta_item.is_word(),
            None => false,
        }
    }

    /// The place of the item.
    pub fn span(&self) -> (span: Span)
        ensures
            span == match self {
                NestedMetaItem::MetaItem(item) => item.span,
                NestedMetaItem::Lit(lit) => lit.span,
            },
    {
        match self {
            NestedMetaItem::MetaItem(item) => item.span,
            NestedMetaItem::Lit(lit) => lit.span,
        }
    }
}

impl Attribute {
    /// Whether the attribute is written as one under the single name `name`.
    pub fn has_name(&self, name: Symbol) -> (same: bool)
        ensures
            same == (self.kind matches AttrKind::Normal(normal) && single_name(&normal.item.path) matches Some(
                ident,
            ) && ident.name == name),
    {
        match &self.kind {
            AttrKind::Normal(normal) => normal.item.path.is_name(name),
            AttrKind::DocComment(..) => false,
        }
    }

    /// For a single-segment attribute, returns its name; otherwise, returns
    /// `None`.
    pub fn ident(&self) -> (ident: Option<Ident>)
        ensures
            ident == match self.kind {
                AttrKind::Normal(normal) => single_name(&normal.item.path),
                AttrKind::DocComment(..) => None,
            },
    {
        match &self.kind {
            AttrKind::Normal(normal) => normal.item.path.single_ident(),
            AttrKind::DocComment(..) => None,
        }
    }

    /// Whether the attribute is written as one and nothing follows its path.
    pub fn is_word(&self) -> (word: bool)
        ensures
            word == (self.kind matches AttrKind::Normal(normal) && normal.item.args is Empty),
    {
        match &self.kind {
            AttrKind::Normal(normal) => match &normal.item.args {
                AttrArgs::Empty => true,
                _ => false,
            },
            _ => false,
        }
    }

    /// Returns `true` if it is a sugared doc comment (`///` or `//!` for
    /// example). So `#[doc = "doc"]` (which is a doc comment) and
    /// `#[doc(...)]` (which is not a doc comment) will return `false`.
    pub fn is_doc_comment(&self) -> (is: bool)
        ensures
            is == (self.kind is DocComment),
    {
        match &self.kind {
            AttrKind::Normal(..) => false,
            AttrKind::DocComment(..) => true,
        }
    }

    /// The path and arguments of an attribute that is written as one.
    pub fn get_normal_item(&self) -> (item: &AttrItem)
        requires
            self.kind is Normal,
        ensures
            *item == self.kind->Normal_0.item,
    {
        match &self.kind {
            AttrKind::Normal(normal) => &normal.item,
            AttrKind::DocComment(..) => vstd::pervasive::unreached(),
        }
    }

    /// The path and arguments of an attribute that is written as one.
    pub fn unwrap_normal_item(self) -> (item: AttrItem)
        requires
            self.kind is Normal,
        ensures
            item == self.kind->Normal_0.item,
    {
        match self.kind {
            AttrKind::Normal(normal) => normal.item,
            AttrKind::DocComment(..) => vstd::pervasive::unreached(),
        }
    }
}

/// The texts of the interned strings, each as its bytes, by symbol.
pub struct SymbolInterner {
    pub strings: Vec<Vec<u8>>,
}

impl SymbolInterner {
    /// The text of a symbol: that of the empty string for a symbol that was
    /// never interned.
    pub open spec fn text(&self, symbol: Symbol) -> Seq<u8> {
        if symbol.0 < self.strings@.len() {
            self.strings@[symbol.0 as int]@
        } else {
            Seq::empty()
        }
    }
}

/// Whether a text may hold a link: whether it holds a `[`.
pub open spec fn has_bracket(text: Seq<u8>) -> bool {
    exists|i: int| 0 <= i < text.len() && text[i] == 0x5Bu8
}

/// Says whether a documentation text may hold a link to an item.
pub fn may_have_doc_links(text: &Vec<u8>) -> (may: bool)
    ensures
        may == has_bracket(text@),
{
    let mut i: usize = 0;
    while i < text.len()
        invariant
            i <= text@.len(),
            forall|j: int| 0 <= j < i ==> text@[j] != 0x5Bu8,
        decreases text@.len() - i,
    {
        if text[i] == 0x5Bu8 {
            return true;
        }
        i += 1;
    }
    false
}

/// What the arguments of an attribute say follows its path: nothing, a
/// list read out of parenthesised tokens, or a literal. Arguments in other
/// brackets, a list that does not follow the grammar and a value that is no
/// literal say nothing.
pub open spec fn attr_args_kind(args: &AttrArgs) -> Option<MetaItemKindView> {
    match args {
        AttrArgs::Empty => Some(MetaItemKindView::Word),
        AttrArgs::Delimited(delimited) => if delimited.delim is Parenthesis {
            match parse_list(delimited.tokens@, 0, Seq::empty()) {
                Some(items) => Some(MetaItemKindView::List(items)),
                None => None,
            }
        } else {
            None
        },
        AttrArgs::Eq(_, AttrArgsEq::Ast(Some(token))) => match lit_of_token(*token) {
            Some(lit) => Some(MetaItemKindView::NameValue(lit)),
            None => None,
        },
        AttrArgs::Eq(_, AttrArgsEq::Ast(None)) => None,
        AttrArgs::Eq(_, AttrArgsEq::Hir(lit)) => Some(MetaItemKindView::NameValue(*lit)),
    }
}

/// The string that a meta item kind gives as its value.
pub open spec fn view_value_str(kind: MetaItemKindView) -> Option<Symbol> {
    match kind {
        MetaItemKindView::NameValue(lit) => match lit.kind {
            LitKind::Str(s, _) => Some(s),
            _ => None,
        },
        _ => None,
    }
}

/// The documentation text that an attribute carries: that of a
/// documentation comment, or the string value of an attribute named `doc`.
pub open spec fn attr_doc_str(attr: &Attribute) -> Option<Symbol> {
    match attr.kind {
        AttrKind::DocComment(_, data) => Some(data),
        AttrKind::Normal(normal) => if single_name(&normal.item.path) matches Some(ident)
            && ident.name == doc_symbol() {
            match attr_args_kind(&normal.item.args) {
                Some(kind) => view_value_str(kind),
                None => None,
            }
        } else {
            None
        },
    }
}

impl MetaItemKind {
    /// Reads what follows the path of an attribute out of its arguments.
    pub fn from_attr_args(args: &AttrArgs) -> (kind: Option<MetaItemKind>)
        ensures
            match attr_args_kind(args) {
                Some(view) => kind is Some && kind_view(&kind->0) == view,
                None => kind is None,
            },
    {
        match args {
            AttrArgs::Empty => Some(MetaItemKind::Word),
            AttrArgs::Delimited(delimited) => match delimited.delim {
                MacDelimiter::Parenthesis => MetaItemKind::list_from_tokens(&delimited.tokens),
                _ => None,
            },
            AttrArgs::Eq(_, AttrArgsEq::Ast(expr)) => match expr {
                Some(token) => match MetaItemLit::from_token(token) {
                    Some(lit) => Some(MetaItemKind::NameValue(lit)),
                    None => None,
                },
                None => None,
            },
            AttrArgs::Eq(_, AttrArgsEq::Hir(lit)) => Some(MetaItemKind::NameValue(*lit)),
        }
    }
}

impl Path {
    /// A copy of the path.
    pub fn duplicate(&self) -> (copy: Path)
        ensures
            copy@ == self@,
    {
        let mut segments: Vec<PathSegment> = Vec::new();
        let mut i: usize = 0;
        while i < self.segments.len()
            invariant
                i <= self.segments@.len(),
                segments@ == self.segments@.take(i as int),
            decreases self.segments@.len() - i,
        {
            segments.push(self.segments[i]);
            assert(self.segments@.take(i + 1) =~= self.segments@.take(i as int).push(
                self.segments@[i as int],
            ));
            i += 1;
        }
        assert(self.segments@.take(i as int) =~= self.segments@);
        Path { span: self.span, segments }
    }
}

impl AttrItem {
    /// What follows the path, as a meta item kind.
    pub fn meta_kind(&self) -> (kind: Option<MetaItemKind>)
        ensures
            match attr_args_kind(&self.args) {
                Some(view) => kind is Some && kind_view(&kind->0) == view,
                None => kind is None,
            },
    {
        MetaItemKind::from_attr_args(&self.args)
    }

    /// The item as a meta item at `span`.
    pub fn meta(&self, span: Span) -> (item: Option<MetaItem>)
        ensures
            match attr_args_kind(&self.args) {
                Some(view) => item is Some && meta_view(&item->0) == (MetaItemView {
                    path: self.path@,
                    kind: view,
                    span,
                }),
                None => item is None,
            },
    {
        match self.meta_kind() {
            Some(kind) => Some(MetaItem { path: self.path.duplicate(), kind, span }),
            None => None,
        }
    }
}

impl Attribute {
    /// What follows the path of an attribute that is written as one.
    pub fn meta_kind(&self) -> (kind: Option<MetaItemKind>)
        ensures
            match self.kind {
                AttrKind::Normal(normal) => match attr_args_kind(&normal.item.args) {
                    Some(view) => kind is Some && kind_view(&kind->0) == view,
                    None => kind is None,
                },
                AttrKind::DocComment(..) => kind is None,
            },
    {
        match &self.kind {
            AttrKind::Normal(normal) => normal.item.meta_kind(),
            AttrKind::DocComment(..) => None,
        }
    }

    /// Extracts the MetaItem from inside this Attribute.
    pub fn meta(&self) -> (item: Option<MetaItem>)
        ensures
            match self.kind {
                AttrKind::Normal(normal) => match attr_args_kind(&normal.item.args) {
                    Some(view) => item is Some && meta_view(&item->0) == (MetaItemView {
                        path: normal.item.path@,
                        kind: view,
                        span: self.span,
                    }),
                    None => item is None,
                },
                AttrKind::DocComment(..) => item is None,
            },
    {
        match &self.kind {
            AttrKind::Normal(normal) => normal.item.meta(self.span),
            AttrKind::DocComment(..) => None,
        }
    }

    /// The elements of the list of an attribute that is written as one with
    /// a list.
    pub fn meta_item_list(&self) -> (list: Option<Vec<NestedMetaItem>>)
        ensures
            match self.kind {
                AttrKind::Normal(normal) => match attr_args_kind(&normal.item.args) {
                    Some(MetaItemKindView::List(items)) => list is Some && kind_view(
                        &MetaItemKind::List(list->0),
                    ) == MetaItemKindView::List(items),
                    _ => list is None,
                },
                AttrKind::DocComment(..) => list is None,
            },
    {
        match &self.kind {
            AttrKind::Normal(normal) => match normal.item.meta_kind() {
                Some(MetaItemKind::List(list)) => Some(list),
                _ => None,
            },
            AttrKind::DocComment(..) => None,
        }
    }

    /// The string value of an attribute that is written as a name-value
    /// pair.
    pub fn value_str(&self) -> (value: Option<Symbol>)
        ensures
            value == match self.kind {
                AttrKind::Normal(normal) => match attr_args_kind(&normal.item.args) {
                    Some(kind) => view_value_str(kind),
                    None => None,
                },
                AttrKind::DocComment(..) => None,
            },
    {
        match &self.kind {
            AttrKind::Normal(normal) => match normal.item.meta_kind() {
                Some(kind) => kind.value_str(),
                None => None,
            },
            AttrKind::DocComment(..) => None,
        }
    }

    /// Returns the documentation if this is a doc comment or a sugared doc
    /// comment: `///doc` and `#[doc = "doc"]` give `Some("doc")`, and
    /// `#[doc(...)]` gives `None`.
    pub fn doc_str(&self) -> (doc: Option<Symbol>)
        ensures
            doc == attr_doc_str(self),
    {
        match &self.kind {
            AttrKind::DocComment(_, data) => Some(*data),
            AttrKind::Normal(normal) => {
                if normal.item.path.is_name(Symbol::doc()) {
                    match normal.item.meta_kind() {
                        Some(kind) => kind.value_str(),
                        None => None,
                    }
                } else {
                    None
                }
            },
        }
    }

    /// Returns the documentation and its kind if this is a doc comment or a
    /// sugared doc comment; the text of an attribute named `doc` counts as
    /// that of a line comment.
    pub fn doc_str_and_comment_kind(&self) -> (doc: Option<(Symbol, CommentKind)>)
        ensures
            doc == match attr_doc_str(self) {
                Some(data) => Some(
                    (
                        data,
                        match self.kind {
                            AttrKind::DocComment(kind, _) => kind,
                            AttrKind::Normal(_) => CommentKind::Line,
                        },
                    ),
                ),
                None => None,
            },
    {
        match &self.kind {
            AttrKind::DocComment(kind, data) => Some((*data, *kind)),
            AttrKind::Normal(_) => match self.doc_str() {
                Some(data) => Some((data, CommentKind::Line)),
                None => None,
            },
        }
    }

    /// Whether the documentation that the attribute carries may hold a link
    /// to an item.
    pub fn may_have_doc_links(&self, interner: &SymbolInterner) -> (may: bool)
        ensures
            may == match attr_doc_str(self) {
                Some(data) => has_bracket(interner.text(data)),
                None => false,
            },
    {
        match self.doc_str() {
            Some(data) => {
                let index: usize = data.0 as usize;
                if index < interner.strings.len() {
                    may_have_doc_links(&interner.strings[index])
                } else {
                    false
                }
            },
            None => false,
        }
    }
}

/// A token tree as a value.
pub enum TokenTreeView {
    Token(Token),
    Delimited(DelimSpan, Delimiter, Seq<TokenTreeView>),
}

/// The value of a token tree.
pub open spec fn tree_view(tree: &TokenTree) -> TokenTreeView
    decreases tree,
{
    match tree {
        TokenTree::Token(token) => TokenTreeView::Token(*token),
        TokenTree::Delimited(dspan, delim, inner) => TokenTreeView::Delimited(
            *dspan,
            *delim,
            trees_view(inner@, inner@.len()),
        ),
    }
}

/// The values of the first `n` of some token trees.
pub open spec fn trees_view(trees: Seq<TokenTree>, n: nat) -> Seq<TokenTreeView>
    decreases trees, n,
{
    if n == 0 || n > trees.len() {
        Seq::empty()
    } else {
        trees_view(trees, (n - 1) as nat).push(tree_view(&trees[n - 1]))
    }
}

/// The values of a prefix of some token trees depend on that prefix alone.
pub proof fn lemma_trees_view_prefix(a: Seq<TokenTree>, b: Seq<TokenTree>, n: nat)
    requires
        n <= a.len(),
        n <= b.len(),
        forall|i: int| 0 <= i < n ==> tree_view(&a[i]) == tree_view(&b[i]),
    ensures
        trees_view(a, n) == trees_view(b, n),
    decreases n,
{
    if n > 0 {
        lemma_trees_view_prefix(a, b, (n - 1) as nat);
    }
}

/// A copy of a token tree.
pub fn clone_tree(tree: &TokenTree) -> (copy: TokenTree)
    ensures
        tree_view(&copy) == tree_view(tree),
    decreases tree,
{
    match tree {
        TokenTree::Token(token) => TokenTree::Token(*token),
        TokenTree::Delimited(dspan, delim, inner) => TokenTree::Delimited(
            *dspan,
            *delim,
            clone_trees(inner),
        ),
    }
}

/// A copy of some token trees.
pub fn clone_trees(trees: &Vec<TokenTree>) -> (copy: Vec<TokenTree>)
    ensures
        copy@.len() == trees@.len(),
        trees_view(copy@, copy@.len()) == trees_view(trees@, trees@.len()),
    decreases trees,
{
    let mut copy: Vec<TokenTree> = Vec::new();
    let mut i: usize = 0;
    while i < trees.len()
        invariant
            i <= trees@.len(),
            copy@.len() == i,
            trees_view(copy@, i as nat) == trees_view(trees@, i as nat),
        decreases trees@.len() - i,
    {
        let ghost before = copy@;
        let one = clone_tree(&trees[i]);
        copy.push(one);
        proof {
            assert forall|j: int| 0 <= j < i implies tree_view(&before[j]) == tree_view(
                &copy@[j],
            ) by {}
            lemma_trees_view_prefix(before, copy@, i as nat);
        }
        i += 1;
    }
    copy
}

/// Whether `item` is a meta item with the name `name`.
pub open spec fn is_named(item: NestedMetaItem, name: Symbol) -> bool {
    item matches NestedMetaItem::MetaItem(meta) && single_name(&meta.path) matches Some(ident)
        && ident.name == name
}

/// Whether one of `items` is a meta item with the name `name`.
pub open spec fn names_among(items: Seq<NestedMetaItem>, name: Symbol) -> bool {
    exists|i: int| 0 <= i < items.len() && is_named(#[trigger] items[i], name)
}

/// Whether one of `items` is a meta item with the name `name`.
pub fn list_contains_name(items: &[NestedMetaItem], name: Symbol) -> (found: bool)
    ensures
        found == names_among(items@, name),
{
    let mut i: usize = 0;
    while i < items.len()
        invariant
            i <= items@.len(),
            forall|j: int| 0 <= j < i ==> !is_named(#[trigger] items@[j], name),
        decreases items@.len() - i,
    {
        if items[i].has_name(name) {
            return true;
        }
        i += 1;
    }
    false
}

impl NestedMetaItem {
    /// Returns a name and single literal value tuple of the `MetaItem`: for
    /// a meta item with a single name whose list holds one literal and
    /// nothing else.
    pub fn name_value_literal(&self) -> (pair: Option<(Symbol, &MetaItemLit)>)
        ensures
            match self {
                NestedMetaItem::MetaItem(
                    MetaItem { path, kind: MetaItemKind::List(list), .. },
                ) => if list@.len() == 1 && single_name(path) is Some && list@[0] is Lit {
                    pair == Some((single_name(path)->0.name, &list@[0]->Lit_0))
                } else {
                    pair is None
                },
                _ => pair is None,
            },
    {
        match self.meta_item() {
            Some(meta_item) => match meta_item.meta_item_list() {
                Some(list) => {
                    if list.len() == 1 {
                        match (meta_item.ident(), list[0].lit()) {
                            (Some(ident), Some(lit)) => Some((ident.name, lit)),
                            _ => None,
                        }
                    } else {
                        None
                    }
                },
                None => None,
            },
            None => None,
        }
    }
}

/// Gives out the identities of attributes, one after the other.
pub struct AttrIdGenerator {
    next: u32,
}

impl AttrIdGenerator {
    /// The identity that is given out next.
    pub closed spec fn next_id(&self) -> u32 {
        self.next
    }

    /// A generator that starts at `first`.
    pub fn new(first: u32) -> (g: Self)
        ensures
            g.next_id() == first,
    {
        AttrIdGenerator { next: first }
    }

    /// The next identity.
    pub fn mk_attr_id(&mut self) -> (id: AttrId)
        requires
            old(self).next_id() < u32::MAX,
        ensures
            id == AttrId(old(self).next_id()),
            final(self).next_id() == old(self).next_id() + 1,
    {
        let id = self.next;
        self.next = id + 1;
        AttrId(id)
    }
}

/// An attribute with the given path and arguments, under a fresh identity.
pub fn mk_attr(g: &mut AttrIdGenerator, style: AttrStyle, path: Path, args: AttrArgs, span: Span) -> (attr:
    Attribute)
    requires
        old(g).next_id() < u32::MAX,
    ensures
        final(g).next_id() == old(g).next_id() + 1,
        attr.id == AttrId(old(g).next_id()),
        attr.style == style,
        attr.span == span,
        attr.kind == AttrKind::Normal(NormalAttr { item: AttrItem { path, args }, tokens: None }),
{
    mk_attr_from_item(g, AttrItem { path, args }, None, style, span)
}

/// An attribute around the given item, under a fresh identity.
pub fn mk_attr_from_item(
    g: &mut AttrIdGenerator,
    item: AttrItem,
    tokens: Option<Vec<TokenTree>>,
    style: AttrStyle,
    span: Span,
) -> (attr: Attribute)
    requires
        old(g).next_id() < u32::MAX,
    ensures
        final(g).next_id() == old(g).next_id() + 1,
        attr.id == AttrId(old(g).next_id()),
        attr.style == style,
        attr.span == span,
        attr.kind == AttrKind::Normal(NormalAttr { item, tokens }),
{
    Attribute { kind: AttrKind::Normal(NormalAttr { item, tokens }), id: g.mk_attr_id(), style, span }
}

/// The attribute `#[name]`, under a fresh identity.
pub fn mk_attr_word(g: &mut AttrIdGenerator, style: AttrStyle, name: Symbol, span: Span) -> (attr:
    Attribute)
    requires
        old(g).next_id() < u32::MAX,
    ensures
        final(g).next_id() == old(g).next_id() + 1,
        attr.id == AttrId(old(g).next_id()),
        attr.style == style,
        attr.span == span,
        attr.kind is Normal,
        attr.kind->Normal_0.tokens is None,
        attr.kind->Normal_0.item.args is Empty,
        attr.kind->Normal_0.item.path.span == span,
        attr.kind->Normal_0.item.path.segments@ == seq![
            PathSegment { ident: Ident { name, span } },
        ],
{
    let mut segments: Vec<PathSegment> = Vec::new();
    segments.push(PathSegment { ident: Ident { name, span } });
    let path = Path { span, segments };
    mk_attr(g, style, path, AttrArgs::Empty, span)
}

/// The attribute `#[outer(inner)]`, under a fresh identity.
pub fn mk_attr_nested_word(
    g: &mut AttrIdGenerator,
    style: AttrStyle,
    outer: Symbol,
    inner: Symbol,
    span: Span,
) -> (attr: Attribute)
    requires
        old(g).next_id() < u32::MAX,
    ensures
        final(g).next_id() == old(g).next_id() + 1,
        attr.id == AttrId(old(g).next_id()),
        attr.style == style,
        attr.span == span,
        attr.kind is Normal,
        attr.kind->Normal_0.tokens is None,
        attr.kind->Normal_0.item.path.span == span,
        attr.kind->Normal_0.item.path.segments@ == seq![
            PathSegment { ident: Ident { name: outer, span } },
        ],
        attr.kind->Normal_0.item.args matches AttrArgs::Delimited(delimited) && delimited.delim
            == MacDelimiter::Parenthesis && delimited.dspan == (DelimSpan { open: span, close: span })
            && delimited.tokens@ == seq![
            TokenTree::Token(Token { kind: TokenKind::Ident(inner), span }),
        ],
{
    let mut inner_tokens: Vec<TokenTree> = Vec::new();
    inner_tokens.push(TokenTree::Token(Token { kind: TokenKind::Ident(inner), span }));
    let mut segments: Vec<PathSegment> = Vec::new();
    segments.push(PathSegment { ident: Ident { name: outer, span } });
    let path = Path { span, segments };
    let attr_args = AttrArgs::Delimited(
        DelimArgs {
            dspan: DelimSpan { open: span, close: span },
            delim: MacDelimiter::Parenthesis,
            tokens: inner_tokens,
        },
    );
    mk_attr(g, style, path, attr_args, span)
}

/// The attribute that a documentation comment stands for, under a fresh
/// identity.
pub fn mk_doc_comment(
    g: &mut AttrIdGenerator,
    comment_kind: CommentKind,
    style: AttrStyle,
    data: Symbol,
    span: Span,
) -> (attr: Attribute)
    requires
        old(g).next_id() < u32::MAX,
    ensures
        final(g).next_id() == old(g).next_id() + 1,
        attr.id == AttrId(old(g).next_id()),
        attr.style == style,
        attr.span == span,
        attr.kind == AttrKind::DocComment(comment_kind, data),
{
    Attribute { kind: AttrKind::DocComment(comment_kind, data), id: g.mk_attr_id(), style, span }
}

impl Attribute {
    /// The tokens of the attribute: those kept with an attribute that is
    /// written as one, and the single token of a documentation comment.
    pub fn tokens(&self) -> (tokens: Vec<TokenTree>)
        requires
            self.kind matches AttrKind::Normal(normal) ==> normal.tokens is Some,
        ensures
            match self.kind {
                AttrKind::Normal(normal) => trees_view(tokens@, tokens@.len()) == trees_view(
                    normal.tokens->0@,
                    normal.tokens->0@.len(),
                ),
                AttrKind::DocComment(comment_kind, data) => tokens@ == seq![
                    TokenTree::Token(
                        Token {
                            kind: TokenKind::DocComment(comment_kind, self.style, data),
                            span: self.span,
                        },
                    ),
                ],
            },
    {
        match &self.kind {
            AttrKind::Normal(normal) => match &normal.tokens {
                Some(tokens) => clone_trees(tokens),
                None => vstd::pervasive::unreached(),
            },
            AttrKind::DocComment(comment_kind, data) => {
                let mut tokens: Vec<TokenTree> = Vec::new();
                tokens.push(
                    TokenTree::Token(
                        Token {
                            kind: TokenKind::DocComment(*comment_kind, self.style, *data),
                            span: self.span,
                        },
                    ),
                );
                tokens
            },
        }
    }
}

/// The attributes that were marked, by their identities.
pub struct MarkedAttrs {
    marks: Vec<bool>,
}

impl MarkedAttrs {
    /// The identities that are marked.
    pub closed spec fn marked(&self) -> Set<u32> {
        Set::new(|id: u32| id < self.marks@.len() && self.marks@[id as int])
    }

    /// No attribute is marked.
    pub fn new() -> (m: Self)
        ensures
            m.marked() == Set::<u32>::empty(),
    {
        let m = MarkedAttrs { marks: Vec::new() };
        assert(m.marked() =~= Set::<u32>::empty());
        m
    }

    /// Marks an attribute.
    pub fn mark(&mut self, attr: &Attribute)
        ensures
            final(self).marked() == old(self).marked().insert(attr.id.0),
    {
        let id: usize = attr.id.0 as usize;
        while self.marks.len() <= id
            invariant
                old(self).marks@.len() <= self.marks@.len(),
                forall|k: int|
                    0 <= k < old(self).marks@.len() ==> self.marks@[k] == old(self).marks@[k],
                forall|k: int| old(self).marks@.len() <= k < self.marks@.len() ==> !self.marks@[k],
            decreases id + 1 - self.marks@.len(),
        {
            self.marks.push(false);
        }
        self.marks.set(id, true);
        assert(self.marked() =~= old(self).marked().insert(attr.id.0));
    }

    /// Whether an attribute is marked.
    pub fn is_marked(&self, attr: &Attribute) -> (marked: bool)
        ensures
            marked == self.marked().contains(attr.id.0),
    {
        let id: usize = attr.id.0 as usize;
        id < self.marks.len() && self.marks[id]
    }
}

/// The meta item `ident = "str"`, with the string written as it is.
pub fn mk_name_value_item_str(ident: Ident, str: Symbol, str_span: Span) -> (item: MetaItem)
    ensures
        item.path.span == ident.span,
        item.path.segments@ == seq![PathSegment { ident }],
        item.kind == MetaItemKind::NameValue(
            MetaItemLit { symbol: str, kind: LitKind::Str(str, StrStyle::Cooked), span: str_span },
        ),
        item.span == covering(ident.span, str_span),
{
    mk_name_value_item(ident, str, LitKind::Str(str, StrStyle::Cooked), str_span)
}

/// The span from the start of the earlier of two spans to the end of the
/// later.
pub open spec fn covering(a: Span, b: Span) -> Span {
    Span {
        lo: if a.lo <= b.lo {
            a.lo
        } else {
            b.lo
        },
        hi: if a.hi >= b.hi {
            a.hi
        } else {
            b.hi
        },
    }
}

/// The meta item `ident = literal`, for a literal of the given value that is
/// written as `symbol` at `lit_span`.
pub fn mk_name_value_item(ident: Ident, symbol: Symbol, kind: LitKind, lit_span: Span) -> (item:
    MetaItem)
    ensures
        item.path.span == ident.span,
        item.path.segments@ == seq![PathSegment { ident }],
        item.kind == MetaItemKind::NameValue(MetaItemLit { symbol, kind, span: lit_span }),
        item.span == covering(ident.span, lit_span),
{
    let lit = MetaItemLit { symbol, kind, span: lit_span };
    let span = Span {
        lo: if ident.span.lo <= lit_span.lo {
            ident.span.lo
        } else {
            lit_span.lo
        },
        hi: if ident.span.hi >= lit_span.hi {
            ident.span.hi
        } else {
            lit_span.hi
        },
    };
    let mut segments: Vec<PathSegment> = Vec::new();
    segments.push(PathSegment { ident });
    MetaItem {
        path: Path { span: ident.span, segments },
        kind: MetaItemKind::NameValue(lit),
        span,
    }
}

/// The attribute `#[name = "val"]`, with the string written as it is, under
/// a fresh identity.
pub fn mk_attr_name_value_str(
    g: &mut AttrIdGenerator,
    style: AttrStyle,
    name: Symbol,
    val: Symbol,
    span: Span,
) -> (attr: Attribute)
    requires
        old(g).next_id() < u32::MAX,
    ensures
        final(g).next_id() == old(g).next_id() + 1,
        attr.id == AttrId(old(g).next_id()),
        attr.style == style,
        attr.span == span,
        attr.kind is Normal,
        attr.kind->Normal_0.tokens is None,
        attr.kind->Normal_0.item.path.span == span,
        attr.kind->Normal_0.item.path.segments@ == seq![
            PathSegment { ident: Ident { name, span } },
        ],
        attr.kind->Normal_0.item.args == AttrArgs::Eq(
            span,
            AttrArgsEq::Ast(
                Some(
                    Token {
                        kind: TokenKind::Literal(val, LitKind::Str(val, StrStyle::Cooked)),
                        span,
                    },
                ),
            ),
        ),
{
    let lit = Token { kind: TokenKind::Literal(val, LitKind::Str(val, StrStyle::Cooked)), span };
    let mut segments: Vec<PathSegment> = Vec::new();
    segments.push(PathSegment { ident: Ident { name, span } });
    let path = Path { span, segments };
    let args = AttrArgs::Eq(span, AttrArgsEq::Ast(Some(lit)));
    mk_attr(g, style, path, args, span)
}

} // verus!
