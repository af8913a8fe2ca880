//! The parts of the syntax tree that attributes are made of.

use crate::job::Span;
use vstd::prelude::*;

verus! {

/// An interned string.
#[derive(Clone, Copy, Debug, PartialEq, Eq, Structural, Hash)]
pub struct Symbol(pub u32);

/// The symbol of the empty string.
pub open spec fn empty_symbol() -> Symbol {
    Symbol(0)
}

/// The symbol of the word `doc`.
pub open spec fn doc_symbol() -> Symbol {
    Symbol(1)
}

/// The symbol of the word `true`.
pub open spec fn true_symbol() -> Symbol {
    Symbol(2)
}

/// The symbol of the word `false`.
pub open spec fn false_symbol() -> Symbol {
    Symbol(3)
}

/// The symbol that names the root of a path that starts with `::`.
pub open spec fn path_root_symbol() -> Symbol {
    Symbol(4)
}

impl Symbol {
    /// The symbol of the empty string.
    pub fn empty() -> (s: Symbol)
        ensures
            s == empty_symbol(),
    {
        Symbol(0)
    }

    /// The symbol of the word `doc`.
    pub fn doc() -> (s: Symbol)
        ensures
            s == doc_symbol(),
    {
        Symbol(1)
    }

    /// The symbol that names the root of a path that starts with `::`.
    pub fn path_root() -> (s: Symbol)
        ensures
            s == path_root_symbol(),
    {
        Symbol(4)
    }
}

/// A name at a place in the source.
#[derive(Clone, Copy, Debug, PartialEq, Eq, Structural, Hash)]
pub struct Ident {
    pub name: Symbol,
    pub span: Span,
}

/// One segment of a path.
#[derive(Clone, Copy, Debug, PartialEq, Eq, Structural, Hash)]
pub struct PathSegment {
    pub ident: Ident,
}

/// A path such as `a::b::c`.
#[derive(Debug, PartialEq, Eq)]
pub struct Path {
    pub span: Span,
    pub segments: Vec<PathSegment>,
}

/// How a string literal was written.
#[derive(Clone, Copy, Debug, PartialEq, Eq, Structural, Hash)]
pub enum StrStyle {
    Cooked,
    Raw(u8),
}

/// The value of a literal.
#[derive(Clone, Copy, Debug, PartialEq, Eq, Structural, Hash)]
pub enum LitKind {
    Str(Symbol, StrStyle),
    Int(u128),
    Bool(bool),
    Char(char),
    /// A literal whose text could not be turned into a value.
    Invalid,
}

/// A literal in an attribute: its text, its value and its place.
#[derive(Clone, Copy, Debug, PartialEq, Eq, Structural, Hash)]
pub struct MetaItemLit {
    pub symbol: Symbol,
    pub kind: LitKind,
    pub span: Span,
}

/// What follows the path of a meta item.
#[derive(Debug, PartialEq, Eq)]
pub enum MetaItemKind {
    /// Nothing, as in `#[test]`.
    Word,
    /// A list, as in `#[derive(..)]`.
    List(Vec<NestedMetaItem>),
    /// A value, as in `#[feature = "foo"]`.
    NameValue(MetaItemLit),
}

/// The content of an attribute such as `cfg(a, b = "c")`.
#[derive(Debug, PartialEq, Eq)]
pub struct MetaItem {
    pub path: Path,
    pub kind: MetaItemKind,
    pub span: Span,
}

/// An element of the list of a meta item.
#[derive(Debug, PartialEq, Eq)]
pub enum NestedMetaItem {
    /// A full meta item, as the `b = "c"` of `cfg(a, b = "c")`.
    MetaItem(MetaItem),
    /// A literal, as the `"a"` of `name("a")`.
    Lit(MetaItemLit),
}

/// A pair of brackets around tokens.
#[derive(Clone, Copy, Debug, PartialEq, Eq, Structural, Hash)]
pub enum Delimiter {
    Parenthesis,
    Brace,
    Bracket,
    /// Brackets that are not written, around the tokens of an expansion.
    Invisible,
}

/// The brackets that may follow the path of an attribute.
#[derive(Clone, Copy, Debug, PartialEq, Eq, Structural, Hash)]
pub enum MacDelimiter {
    Parenthesis,
    Bracket,
    Brace,
}

/// Whether a comment is a line comment or a block comment.
#[derive(Clone, Copy, Debug, PartialEq, Eq, Structural, Hash)]
pub enum CommentKind {
    Line,
    Block,
}

/// Whether an attribute belongs to what follows it or to what encloses it.
#[derive(Clone, Copy, Debug, PartialEq, Eq, Structural, Hash)]
pub enum AttrStyle {
    Outer,
    Inner,
}

/// What a token is.
#[derive(Clone, Copy, Debug, PartialEq, Eq, Structural, Hash)]
pub enum TokenKind {
    /// A name.
    Ident(Symbol),
    /// `::`
    ModSep,
    /// `,`
    Comma,
    /// `=`
    Eq,
    /// A literal, with its text and its value.
    Literal(Symbol, LitKind),
    /// A documentation comment.
    DocComment(CommentKind, AttrStyle, Symbol),
    /// Any other token.
    Other,
}

/// A token at a place in the source.
#[derive(Clone, Copy, Debug, PartialEq, Eq, Structural, Hash)]
pub struct Token {
    pub kind: TokenKind,
    pub span: Span,
}

/// The places of an opening and a closing bracket.
#[derive(Clone, Copy, Debug, PartialEq, Eq, Structural, Hash)]
pub struct DelimSpan {
    pub open: Span,
    pub close: Span,
}

/// A token, or a bracketed sequence of token trees.
#[derive(Debug, PartialEq, Eq)]
pub enum TokenTree {
    Token(Token),
    Delimited(DelimSpan, Delimiter, Vec<TokenTree>),
}

/// The bracketed arguments of an attribute.
#[derive(Debug, PartialEq, Eq)]
pub struct DelimArgs {
    pub dspan: DelimSpan,
    pub delim: MacDelimiter,
    pub tokens: Vec<TokenTree>,
}

/// The value after the `=` of an attribute.
#[derive(Debug, PartialEq, Eq)]
pub enum AttrArgsEq {
    /// A literal token that was not yet turned into a value, or, with
    /// `None`, an expression that is no literal.
    Ast(Option<Token>),
    /// A literal with its value.
    Hir(MetaItemLit),
}

/// What follows the path of an attribute.
#[derive(Debug, PartialEq, Eq)]
pub enum AttrArgs {
    /// Nothing: `#[attr]`.
    Empty,
    /// Bracketed tokens: `#[attr(..)]`.
    Delimited(DelimArgs),
    /// A value: `#[attr = ..]`, with the place of the `=`.
    Eq(Span, AttrArgsEq),
}

/// The path and the arguments of an attribute.
#[derive(Debug, PartialEq, Eq)]
pub struct AttrItem {
    pub path: Path,
    pub args: AttrArgs,
}

/// An attribute that was written as one.
#[derive(Debug, PartialEq, Eq)]
pub struct NormalAttr {
    pub item: AttrItem,
    /// The tokens of the whole attribute, where they were kept.
    pub tokens: Option<Vec<TokenTree>>,
}

/// An attribute is written as one, or as a documentation comment.
#[derive(Debug, PartialEq, Eq)]
pub enum AttrKind {
    Normal(NormalAttr),
    DocComment(CommentKind, Symbol),
}

/// Identifies an attribute within a session.
#[derive(Clone, Copy, Debug, PartialEq, Eq, Structural, Hash)]
pub struct AttrId(pub u32);

/// An attribute.
#[derive(Debug, PartialEq, Eq)]
pub struct Attribute {
    pub kind: AttrKind,
    pub id: AttrId,
    pub style: AttrStyle,
    pub span: Span,
}

/// How a function relates to the entry point of a program.
#[derive(Clone, Copy, Debug, PartialEq, Eq, Structural, Hash)]
pub enum EntryPointType {
    /// Not an entry point.
    NoEntryPoint,
    MainNamed,
    RustcMainAttr,
    Start,
    Circuit,
    /// Not an entry point, but some other function named main.
    OtherMain,
}

} // verus!
