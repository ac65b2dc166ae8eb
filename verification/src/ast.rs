//! The structured tree of one program module, as the analysis receives it.
//!
//! Parsing raw text into this tree happens upstream; the analysis only reads
//! and rewrites the shapes below. Every node carries the source position it
//! was written at, so that a structural error can point at the offending node.

use vstd::prelude::*;

verus! {

/// A source position range.
#[derive(Clone, Copy, Debug, PartialEq, Eq)]
pub struct Span {
    pub lo: usize,
    pub hi: usize,
}

/// An identifier together with the position it was written at.
#[derive(Clone, Debug, PartialEq, Eq)]
pub struct Ident {
    pub name: String,
    pub span: Span,
}

/// A simple path as an attribute names it: an optional leading `::`, then
/// identifier segments.
#[derive(Clone, Debug, PartialEq, Eq)]
pub struct AttrPath {
    pub leading_colon: bool,
    pub segments: Vec<String>,
}

/// The shape of one attribute's meta item.
#[derive(Clone, Debug, PartialEq, Eq)]
pub enum AttrMeta {
    /// A bare path with neither arguments nor a value: `#[name]`.
    Path(AttrPath),
    /// A path followed by parenthesized arguments: `#[name(...)]`.
    List(AttrPath),
    /// A path given a value: `#[name = ...]`.
    NameValue(AttrPath),
    /// An attribute whose tokens take none of the structured forms above.
    Malformed,
}

/// One attribute of an item or of the module itself.
#[derive(Clone, Debug, PartialEq, Eq)]
pub struct Attribute {
    pub meta: AttrMeta,
    pub span: Span,
}

/// One argument inside an angle-bracketed generic argument list.
#[derive(Debug, PartialEq, Eq)]
pub enum GenericArg {
    /// A lifetime argument such as `'a`.
    Lifetime(Span),
    /// A const argument such as `4`.
    Const(Span),
    /// A type-valued argument.
    Type(Type),
}

/// An angle-bracketed generic argument list: `<...>`.
#[derive(Debug, PartialEq, Eq)]
pub struct GenericArgList {
    pub args: Vec<GenericArg>,
    pub span: Span,
}

/// The arguments attached to one path segment.
#[derive(Debug, PartialEq, Eq)]
pub enum PathArguments {
    /// No arguments at all: `u8`.
    Plain,
    /// An angle-bracketed list: `Context<Initialize>`.
    AngleBracketed(GenericArgList),
    /// Parenthesized arguments as in `Fn(A) -> B`.
    Parenthesized(Span),
}

/// One segment of a type path: an identifier with its generic arguments.
#[derive(Debug, PartialEq, Eq)]
pub struct PathSegment {
    pub ident: Ident,
    pub arguments: PathArguments,
}

/// A path type. A path written in source always has a leading segment, so the
/// head stands apart from the possibly empty tail.
#[derive(Debug, PartialEq, Eq)]
pub struct TypePath {
    pub head: PathSegment,
    pub tail: Vec<PathSegment>,
    pub span: Span,
}

/// A declared type: a closed sum over the shapes the analysis tells apart.
#[derive(Debug, PartialEq, Eq)]
pub enum Type {
    /// A path type such as `Context<Initialize>`.
    Path(TypePath),
    /// Any other shape: a reference, a tuple, an array, and so on.
    Other(Span),
}

/// A handler parameter: the pattern it binds and the type it declares, with
/// the span of the whole parameter.
#[derive(Debug, PartialEq, Eq)]
pub struct HandlerParameter {
    pub pat: Ident,
    pub ty: Type,
    pub span: Span,
}

/// A top-level function item: its attributes, name and parameters.
#[derive(Debug, PartialEq, Eq)]
pub struct ItemFn {
    pub attrs: Vec<Attribute>,
    pub ident: Ident,
    pub params: Vec<HandlerParameter>,
    pub span: Span,
}

/// A top-level item that is not a function; the analysis carries it through
/// untouched.
#[derive(Clone, Debug, PartialEq, Eq)]
pub struct OpaqueItem {
    pub span: Span,
}

/// One top-level item of the module.
#[derive(Debug, PartialEq, Eq)]
pub enum Item {
    Fn(ItemFn),
    Other(OpaqueItem),
}

/// The module under analysis: its identifier, its own attribute list and its
/// ordered top-level items.
#[derive(Debug, PartialEq, Eq)]
pub struct ProgramModule {
    pub ident: Ident,
    pub attrs: Vec<Attribute>,
    pub items: Vec<Item>,
    pub span: Span,
}

/// Copies an identifier out of borrowed tree data.
pub fn clone_ident(ident: &Ident) -> (r: Ident)
    ensures
        r == *ident,
{
    Ident { name: ident.name.clone(), span: ident.span }
}

} // verus!
