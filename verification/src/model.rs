//! Syntactic model of an annotated procedure's signature.
//!
//! The classifier never sees the source language's own syntax tree; the caller
//! reduces each declared parameter to the little shape information the
//! transform actually reads: the binding pattern, whether the type is a
//! borrow, its mutability, and the borrowed type's path segments.

use vstd::prelude::*;

verus! {

/// The binding pattern of one declared parameter.
#[derive(Debug, PartialEq, Eq)]
pub enum PatShape {
    /// A plain identifier binding.
    Ident(String),
    /// Any other pattern (tuple, struct, wildcard, ...): rejected.
    Other,
}

/// One segment of a named type path.
#[derive(Debug, PartialEq, Eq)]
pub struct PathSegment {
    /// The segment's identifier; the last segment's is the type's simple
    /// name, the one the classifier matches against the reserved handle
    /// names.
    pub name: String,
    /// The verbatim text of the segment's generic arguments (`"<Foo>"`), or
    /// empty for a plain segment. Like the procedure's body it is an opaque
    /// unit: the transform reproduces it unchanged and never reads it.
    pub arguments: String,
}

/// The shape of the type borrowed by a parameter, as far as the transform
/// reads it: a named path, or anything else.
#[derive(Debug, PartialEq, Eq)]
pub enum ElemShape {
    /// A named path, as its segments in order, e.g. `a::b::C<D>` as
    /// `[a, b, C<D>]`. A well-formed path has at least one segment.
    Path(Vec<PathSegment>),
    /// Any other element type (slice, tuple, nested borrow, ...): rejected.
    NotPath,
}

/// The shape of one declared parameter's type.
#[derive(Debug, PartialEq, Eq)]
pub enum TyShape {
    /// A borrow `&T` or `&mut T` of some element type.
    Borrow { mutable: bool, elem: ElemShape },
    /// Any non-borrow type: rejected.
    NotBorrow,
}

/// One declared parameter.
#[derive(Debug, PartialEq, Eq)]
pub enum ParamDecl {
    /// A receiver-style parameter (it binds the enclosing object and carries
    /// no declared type): rejected.
    Receiver,
    /// An ordinary `pattern: type` parameter.
    Typed { pat: PatShape, ty: TyShape },
}

/// One annotated procedure, as the transform sees it. The procedure's body is
/// not part of the model: it is an opaque unit that the caller splices into
/// the rendered output unchanged.
#[derive(Debug, PartialEq, Eq)]
pub struct SystemDef {
    /// The procedure's identifier, reused as the emitted factory's name.
    pub name: String,
    /// How many generic (type or lifetime) parameters the procedure declares.
    pub generic_count: usize,
    /// The declared parameters, in declaration order.
    pub params: Vec<ParamDecl>,
}

/// Mathematical image of [`PatShape`].
pub enum SpecPatShape {
    Ident(Seq<char>),
    Other,
}

/// Mathematical image of [`PathSegment`].
pub struct SpecPathSegment {
    pub name: Seq<char>,
    pub arguments: Seq<char>,
}

/// Mathematical image of [`ElemShape`].
pub enum SpecElemShape {
    Path(Seq<SpecPathSegment>),
    NotPath,
}

/// Mathematical image of [`TyShape`].
pub enum SpecTyShape {
    Borrow { mutable: bool, elem: SpecElemShape },
    NotBorrow,
}

/// Mathematical image of [`ParamDecl`].
pub enum SpecParamDecl {
    Receiver,
    Typed { pat: SpecPatShape, ty: SpecTyShape },
}

/// Mathematical image of [`SystemDef`].
pub struct SpecSystemDef {
    pub name: Seq<char>,
    pub generic_count: int,
    pub params: Seq<SpecParamDecl>,
}

/// The views of a sequence of owned strings.
pub open spec fn strings_view(v: Seq<String>) -> Seq<Seq<char>> {
    v.map_values(|s: String| s@)
}

/// The views of a sequence of path segments.
pub open spec fn segments_view(v: Seq<PathSegment>) -> Seq<SpecPathSegment> {
    v.map_values(|s: PathSegment| s@)
}

/// The views of a sequence of declared parameters.
pub open spec fn params_view(v: Seq<ParamDecl>) -> Seq<SpecParamDecl> {
    v.map_values(|p: ParamDecl| p@)
}

impl View for PatShape {
    type V = SpecPatShape;

    open spec fn view(&self) -> SpecPatShape {
        match self {
            PatShape::Ident(name) => SpecPatShape::Ident(name@),
            PatShape::Other => SpecPatShape::Other,
        }
    }
}

impl View for PathSegment {
    type V = SpecPathSegment;

    open spec fn view(&self) -> SpecPathSegment {
        SpecPathSegment { name: self.name@, arguments: self.arguments@ }
    }
}

impl View for ElemShape {
    type V = SpecElemShape;

    open spec fn view(&self) -> SpecElemShape {
        match self {
            ElemShape::Path(segments) => SpecElemShape::Path(segments_view(segments@)),
            ElemShape::NotPath => SpecElemShape::NotPath,
        }
    }
}

impl View for TyShape {
    type V = SpecTyShape;

    open spec fn view(&self) -> SpecTyShape {
        match self {
            TyShape::Borrow { mutable, elem } => SpecTyShape::Borrow {
                mutable: *mutable,
                elem: elem@,
            },
            TyShape::NotBorrow => SpecTyShape::NotBorrow,
        }
    }
}

impl View for ParamDecl {
    type V = SpecParamDecl;

    open spec fn view(&self) -> SpecParamDecl {
        match self {
            ParamDecl::Receiver => SpecParamDecl::Receiver,
            ParamDecl::Typed { pat, ty } => SpecParamDecl::Typed { pat: pat@, ty: ty@ },
        }
    }
}

impl View for SystemDef {
    type V = SpecSystemDef;

    open spec fn view(&self) -> SpecSystemDef {
        SpecSystemDef {
            name: self.name@,
            generic_count: self.generic_count as int,
            params: params_view(self.params@),
        }
    }
}

} // verus!

