//! A model of the parts of a Rust function body that `#[pyo3(add_*)]`
//! processing reads.
//!
//! The library does not look inside the syntax it carries: a statement that is
//! not a `use` item, and the raw form of an attribute, travel through the
//! processing as opaque payloads (`S` and `A`).  What the processing does read
//! is held here as plain values: the parsed meta form of each attribute, the
//! shape of the tree of each `use` item, and identifiers as their text.
use vstd::prelude::*;

verus! {

/// One segment of a path, such as `pyo3` in `pyo3::add_class`.
#[derive(Debug, PartialEq, Eq)]
pub struct PathSegment {
    /// The segment's identifier, as its text (a raw identifier keeps its `r#`).
    pub ident: String,
    /// Whether the segment carries angle-bracketed or parenthesized arguments.
    pub has_arguments: bool,
}

/// A path as it appears in an attribute, such as `pyo3` or `::a::b`.
#[derive(Debug, PartialEq, Eq)]
pub struct MetaPath {
    /// Whether the path starts with `::`.
    pub leading_colon: bool,
    /// The segments of the path, in order.
    pub segments: Vec<PathSegment>,
}

/// An item inside the parentheses of a list attribute.
#[derive(Debug, PartialEq, Eq)]
pub enum NestedMeta {
    /// A nested meta item (`add_class`, `a = 1`, `a(b)`), by its path.
    Meta(MetaPath),
    /// A literal, such as `"text"` or `3`.
    Lit,
}

/// The meta form of an attribute.
#[derive(Debug, PartialEq, Eq)]
pub enum Meta {
    /// A bare path: `#[path]`.
    Path(MetaPath),
    /// A list: `#[path(nested, ...)]`.
    List(MetaPath, Vec<NestedMeta>),
    /// A name-value pair: `#[path = lit]`.
    NameValue(MetaPath),
}

/// An attribute: its raw syntax, carried through unchanged, and its meta form,
/// or `None` where the attribute does not parse as a meta item.
#[derive(Debug, PartialEq, Eq)]
pub struct Attribute<A> {
    pub raw: A,
    pub meta: Option<Meta>,
}

/// The shape of the tree of a `use` item.
#[derive(Debug, PartialEq, Eq)]
pub enum UseTree {
    /// A path prefix: `a::...`.
    Path,
    /// A single imported name, by its text: `f`.
    Name(String),
    /// A renamed import: `f as g`.
    Rename,
    /// A glob import: `*`.
    Glob,
    /// A braced group: `{f, g}`.
    Group,
}

/// A `use` item that stands as a statement of a function body.  `raw` holds the
/// rest of the item, which the processing carries through unchanged.
#[derive(Debug, PartialEq, Eq)]
pub struct ItemUse<S, A> {
    pub raw: S,
    pub attrs: Vec<Attribute<A>>,
    pub tree: UseTree,
}

/// The statement `module.add_wrapped(&wrapper)?;`, by the text of its two
/// identifiers.
#[derive(Debug, PartialEq, Eq)]
pub struct AddWrapped {
    pub module: String,
    pub wrapper: String,
}

/// A statement of a function body.
#[derive(Debug, PartialEq, Eq)]
pub enum Stmt<S, A> {
    /// A `use` item.
    Use(ItemUse<S, A>),
    /// A registration statement `module.add_wrapped(&wrapper)?;`.
    AddWrapped(AddWrapped),
    /// Any other statement, carried through unchanged.
    Other(S),
}

/// A function, by the statements of its body.
#[derive(Debug, PartialEq, Eq)]
pub struct ItemFn<S, A> {
    pub stmts: Vec<Stmt<S, A>>,
}

// ----------------------------------------------------------------------------
// Mathematical views
// ----------------------------------------------------------------------------

pub struct PathSegmentV {
    pub ident: Seq<char>,
    pub has_arguments: bool,
}

pub struct MetaPathV {
    pub leading_colon: bool,
    pub segments: Seq<PathSegmentV>,
}

pub enum NestedMetaV {
    Meta(MetaPathV),
    Lit,
}

pub enum MetaV {
    Path(MetaPathV),
    List(MetaPathV, Seq<NestedMetaV>),
    NameValue(MetaPathV),
}

pub struct AttributeV<A> {
    pub raw: A,
    pub meta: Option<MetaV>,
}

pub enum UseTreeV {
    Path,
    Name(Seq<char>),
    Rename,
    Glob,
    Group,
}

pub struct ItemUseV<S, A> {
    pub raw: S,
    pub attrs: Seq<AttributeV<A>>,
    pub tree: UseTreeV,
}

pub struct AddWrappedV {
    pub module: Seq<char>,
    pub wrapper: Seq<char>,
}

pub enum StmtV<S, A> {
    Use(ItemUseV<S, A>),
    AddWrapped(AddWrappedV),
    Other(S),
}

impl View for PathSegment {
    type V = PathSegmentV;

    open spec fn view(&self) -> PathSegmentV {
        PathSegmentV { ident: self.ident@, has_arguments: self.has_arguments }
    }
}

impl View for MetaPath {
    type V = MetaPathV;

    open spec fn view(&self) -> MetaPathV {
        MetaPathV {
            leading_colon: self.leading_colon,
            segments: self.segments@.map_values(|s: PathSegment| s@),
        }
    }
}

impl View for NestedMeta {
    type V = NestedMetaV;

    open spec fn view(&self) -> NestedMetaV {
        match self {
            NestedMeta::Meta(p) => NestedMetaV::Meta(p@),
            NestedMeta::Lit => NestedMetaV::Lit,
        }
    }
}

impl View for Meta {
    type V = MetaV;

    open spec fn view(&self) -> MetaV {
        match self {
            Meta::Path(p) => MetaV::Path(p@),
            Meta::List(p, nested) => MetaV::List(
                p@,
                nested@.map_values(|n: NestedMeta| n@),
            ),
            Meta::NameValue(p) => MetaV::NameValue(p@),
        }
    }
}

impl<A> View for Attribute<A> {
    type V = AttributeV<A>;

    open spec fn view(&self) -> AttributeV<A> {
        AttributeV {
            raw: self.raw,
            meta: match self.meta {
                Some(m) => Some(m@),
                None => None,
            },
        }
    }
}

impl View for UseTree {
    type V = UseTreeV;

    open spec fn view(&self) -> UseTreeV {
        match self {
            UseTree::Path => UseTreeV::Path,
            UseTree::Name(n) => UseTreeV::Name(n@),
            UseTree::Rename => UseTreeV::Rename,
            UseTree::Glob => UseTreeV::Glob,
            UseTree::Group => UseTreeV::Group,
        }
    }
}

/// The view of a sequence of attributes.
pub open spec fn attrs_view<A>(attrs: Seq<Attribute<A>>) -> Seq<AttributeV<A>> {
    attrs.map_values(|a: Attribute<A>| a@)
}

impl<S, A> View for ItemUse<S, A> {
    type V = ItemUseV<S, A>;

    open spec fn view(&self) -> ItemUseV<S, A> {
        ItemUseV { raw: self.raw, attrs: attrs_view(self.attrs@), tree: self.tree@ }
    }
}

impl View for AddWrapped {
    type V = AddWrappedV;

    open spec fn view(&self) -> AddWrappedV {
        AddWrappedV { module: self.module@, wrapper: self.wrapper@ }
    }
}

impl<S, A> View for Stmt<S, A> {
    type V = StmtV<S, A>;

    open spec fn view(&self) -> StmtV<S, A> {
        match self {
            Stmt::Use(u) => StmtV::Use(u@),
            Stmt::AddWrapped(w) => StmtV::AddWrapped(w@),
            Stmt::Other(s) => StmtV::Other(*s),
        }
    }
}

/// The view of a sequence of statements.
pub open spec fn stmts_view<S, A>(stmts: Seq<Stmt<S, A>>) -> Seq<StmtV<S, A>> {
    stmts.map_values(|s: Stmt<S, A>| s@)
}

impl<S, A> View for ItemFn<S, A> {
    type V = Seq<StmtV<S, A>>;

    open spec fn view(&self) -> Seq<StmtV<S, A>> {
        stmts_view(self.stmts@)
    }
}

// ----------------------------------------------------------------------------
// Path identifiers
// ----------------------------------------------------------------------------

/// A path is the identifier `name` when it has no leading `::`, exactly one
/// segment, no arguments on that segment, and the segment's text is `name`.
pub open spec fn path_is_ident(p: MetaPathV, name: Seq<char>) -> bool {
    &&& !p.leading_colon
    &&& p.segments.len() == 1
    &&& !p.segments[0].has_arguments
    &&& p.segments[0].ident == name
}

impl MetaPath {
    /// Whether this path is the single identifier `name`.
    pub fn is_ident(&self, name: &str) -> (r: bool)
        ensures
            r == path_is_ident(self@, name@),
    {
        if self.leading_colon || self.segments.len() != 1 {
            return false;
        }
        let seg = &self.segments[0];
        if seg.has_arguments {
            return false;
        }
        seg.ident == String::from_str(name)
    }
}

} // verus!
