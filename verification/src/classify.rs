//! Signature classifier: walks the declared parameter list and produces a
//! [`SystemDescriptor`], tagging every parameter as one of the two injected
//! handles or as a resource, or rejects the procedure.

use vstd::prelude::*;

use crate::model::{
    params_view, segments_view, ElemShape, ParamDecl, PathSegment, PatShape, SpecElemShape,
    SpecParamDecl, SpecPathSegment, SpecPatShape, SpecSystemDef, SpecTyShape, SystemDef, TyShape,
};

verus! {

/// What one declared parameter is to the generated registration.
#[derive(Debug, Clone, Copy, PartialEq, Eq, Structural)]
pub enum Classification {
    /// The injected command-buffer handle, recognised by the reserved simple
    /// type name `CommandBuffer`.
    InjectedCommandBuffer,
    /// The injected prepared-world-snapshot handle, recognised by the
    /// reserved simple type name `PreparedWorld`.
    InjectedWorldSnapshot,
    /// Any other named type: a resource the system reads or writes.
    Resource,
}

/// Why generation of one system failed. Every failure is fatal to that one
/// definition and is reported at build time.
#[derive(Debug, Clone, Copy, PartialEq, Eq, Structural)]
pub enum GenError {
    /// The procedure declares generic (type or lifetime) parameters.
    UnsupportedGenerics,
    /// The procedure declares a receiver-style parameter.
    UnsupportedReceiver,
    /// A parameter is not an identifier bound to a borrow of a simple named
    /// path.
    InvalidParameterShape,
}

impl GenError {
    /// The build-time message identifying the offending construct.
    pub fn message(&self) -> (m: &'static str)
        ensures
            m@ == self.spec_message(),
    {
        match self {
            GenError::UnsupportedGenerics => "systems may not have generic parameters",
            GenError::UnsupportedReceiver => "systems may not accept `self` parameters",
            GenError::InvalidParameterShape => {
                "system parameters must be identifiers bound to a read or write borrow of a named type"
            },
        }
    }

    /// The message each error carries.
    pub open spec fn spec_message(&self) -> Seq<char> {
        match self {
            GenError::UnsupportedGenerics => "systems may not have generic parameters"@,
            GenError::UnsupportedReceiver => "systems may not accept `self` parameters"@,
            GenError::InvalidParameterShape => "system parameters must be identifiers bound to a read or write borrow of a named type"@,
        }
    }
}

/// One classified parameter, in declaration order.
#[derive(Debug, PartialEq, Eq)]
pub struct ParameterDescriptor {
    /// The binding identifier, reused at the generated call-site and inside
    /// the synthesized closure.
    pub name: String,
    /// The borrowed type's path segments, retained in full for resource
    /// lookup in the generated chain.
    pub type_path: Vec<PathSegment>,
    /// Whether the parameter was declared as an exclusive (write) borrow.
    pub mutable: bool,
    /// What the parameter is to the generated registration.
    pub classification: Classification,
}

/// Mathematical image of [`ParameterDescriptor`].
pub struct SpecParameterDescriptor {
    pub name: Seq<char>,
    pub type_path: Seq<SpecPathSegment>,
    pub mutable: bool,
    pub classification: Classification,
}

impl View for ParameterDescriptor {
    type V = SpecParameterDescriptor;

    open spec fn view(&self) -> SpecParameterDescriptor {
        SpecParameterDescriptor {
            name: self.name@,
            type_path: segments_view(self.type_path@),
            mutable: self.mutable,
            classification: self.classification,
        }
    }
}

/// One classified procedure.
#[derive(Debug, PartialEq, Eq)]
pub struct SystemDescriptor {
    /// The procedure's identifier.
    pub name: String,
    /// The classified parameters, in declaration order.
    pub parameters: Vec<ParameterDescriptor>,
    /// The resolved name bound to the command-buffer handle inside the
    /// synthesized closure: the last parameter classified
    /// [`Classification::InjectedCommandBuffer`], or `"cmd_buf"` if none.
    pub command_buffer_binding: String,
    /// The resolved name bound to the world-snapshot handle: the last
    /// parameter classified [`Classification::InjectedWorldSnapshot`], or
    /// `"world"` if none.
    pub world_snapshot_binding: String,
}

/// The views of a sequence of classified parameters.
pub open spec fn descriptors_view(v: Seq<ParameterDescriptor>) -> Seq<SpecParameterDescriptor> {
    v.map_values(|d: ParameterDescriptor| d@)
}

/// Mathematical image of [`SystemDescriptor`].
pub struct SpecSystemDescriptor {
    pub name: Seq<char>,
    pub parameters: Seq<SpecParameterDescriptor>,
    pub command_buffer_binding: Seq<char>,
    pub world_snapshot_binding: Seq<char>,
}

impl View for SystemDescriptor {
    type V = SpecSystemDescriptor;

    open spec fn view(&self) -> SpecSystemDescriptor {
        SpecSystemDescriptor {
            name: self.name@,
            parameters: descriptors_view(self.parameters@),
            command_buffer_binding: self.command_buffer_binding@,
            world_snapshot_binding: self.world_snapshot_binding@,
        }
    }
}

/// The reserved simple type name of the world-snapshot handle.
pub open spec fn world_marker() -> Seq<char> {
    "PreparedWorld"@
}

/// The reserved simple type name of the command-buffer handle.
pub open spec fn command_buffer_marker() -> Seq<char> {
    "CommandBuffer"@
}

/// The default closure binding for an undeclared command-buffer handle.
pub open spec fn default_command_buffer_binding() -> Seq<char> {
    "cmd_buf"@
}

/// The default closure binding for an undeclared world-snapshot handle.
pub open spec fn default_world_binding() -> Seq<char> {
    "world"@
}

/// How a borrowed type's simple name (its last path segment) classifies the
/// parameter.
pub open spec fn spec_classification_of(segments: Seq<SpecPathSegment>) -> Classification
    recommends
        segments.len() > 0,
{
    if segments.last().name == world_marker() {
        Classification::InjectedWorldSnapshot
    } else if segments.last().name == command_buffer_marker() {
        Classification::InjectedCommandBuffer
    } else {
        Classification::Resource
    }
}

/// Classification of one declared parameter: its descriptor, or the error
/// that rejects the whole definition.
pub open spec fn spec_classify_param(p: SpecParamDecl) -> Result<
    SpecParameterDescriptor,
    GenError,
> {
    match p {
        SpecParamDecl::Receiver => Err(GenError::UnsupportedReceiver),
        SpecParamDecl::Typed { pat, ty } => match pat {
            SpecPatShape::Other => Err(GenError::InvalidParameterShape),
            SpecPatShape::Ident(name) => match ty {
                SpecTyShape::NotBorrow => Err(GenError::InvalidParameterShape),
                SpecTyShape::Borrow { mutable, elem } => match elem {
                    SpecElemShape::NotPath => Err(GenError::InvalidParameterShape),
                    SpecElemShape::Path(segments) => {
                        if segments.len() == 0 {
                            Err(GenError::InvalidParameterShape)
                        } else {
                            Ok(SpecParameterDescriptor {
                                name: name,
                                type_path: segments,
                                mutable: mutable,
                                classification: spec_classification_of(segments),
                            })
                        }
                    },
                },
            },
        },
    }
}

/// Classification of a whole parameter list, left to right; the first
/// offending parameter's error rejects the list.
pub open spec fn spec_classify_params(ps: Seq<SpecParamDecl>) -> Result<
    Seq<SpecParameterDescriptor>,
    GenError,
>
    decreases ps.len(),
{
    if ps.len() == 0 {
        Ok(Seq::empty())
    } else {
        match spec_classify_params(ps.drop_last()) {
            Err(e) => Err(e),
            Ok(descriptors) => match spec_classify_param(ps.last()) {
                Err(e) => Err(e),
                Ok(d) => Ok(descriptors.push(d)),
            },
        }
    }
}

/// The name of the last descriptor with the given classification, if any.
pub open spec fn spec_last_named(
    descriptors: Seq<SpecParameterDescriptor>,
    c: Classification,
) -> Option<Seq<char>>
    decreases descriptors.len(),
{
    if descriptors.len() == 0 {
        None
    } else if descriptors.last().classification == c {
        Some(descriptors.last().name)
    } else {
        spec_last_named(descriptors.drop_last(), c)
    }
}

/// The resolved closure binding for one injected-handle classification:
/// the last declared handle of that kind wins, or the default name stands.
pub open spec fn spec_binding(
    descriptors: Seq<SpecParameterDescriptor>,
    c: Classification,
    default: Seq<char>,
) -> Seq<char> {
    match spec_last_named(descriptors, c) {
        Some(name) => name,
        None => default,
    }
}

/// Classification of a whole definition: generic procedures are rejected
/// before any parameter is looked at.
pub open spec fn spec_classify(def: SpecSystemDef) -> Result<SpecSystemDescriptor, GenError> {
    if def.generic_count > 0 {
        Err(GenError::UnsupportedGenerics)
    } else {
        match spec_classify_params(def.params) {
            Err(e) => Err(e),
            Ok(descriptors) => Ok(SpecSystemDescriptor {
                name: def.name,
                parameters: descriptors,
                command_buffer_binding: spec_binding(
                    descriptors,
                    Classification::InjectedCommandBuffer,
                    default_command_buffer_binding(),
                ),
                world_snapshot_binding: spec_binding(
                    descriptors,
                    Classification::InjectedWorldSnapshot,
                    default_world_binding(),
                ),
            }),
        }
    }
}

/// Classifies one declared parameter.
pub fn classify_param(p: &ParamDecl) -> (r: Result<ParameterDescriptor, GenError>)
    ensures
        r is Ok <==> spec_classify_param(p@) is Ok,
        r matches Ok(d) ==> Ok::<_, GenError>(d@) == spec_classify_param(p@),
        r matches Err(e) ==> Err::<SpecParameterDescriptor, _>(e) == spec_classify_param(p@),
{
    match p {
        ParamDecl::Receiver => Err(GenError::UnsupportedReceiver),
        ParamDecl::Typed { pat, ty } => {
            let name = match pat {
                PatShape::Ident(name) => name,
                PatShape::Other => {
                    return Err(GenError::InvalidParameterShape);
                },
            };
            let (mutable, elem) = match ty {
                TyShape::Borrow { mutable, elem } => (*mutable, elem),
                TyShape::NotBorrow => {
                    return Err(GenError::InvalidParameterShape);
                },
            };
            let segments = match elem {
                ElemShape::Path(segments) => segments,
                ElemShape::NotPath => {
                    return Err(GenError::InvalidParameterShape);
                },
            };
            if segments.len() == 0 {
                return Err(GenError::InvalidParameterShape);
            }
            let last = &segments[segments.len() - 1].name;
            let world: String = String::from_str("PreparedWorld");
            let cmd: String = String::from_str("CommandBuffer");
            let classification = if *last == world {
                Classification::InjectedWorldSnapshot
            } else if *last == cmd {
                Classification::InjectedCommandBuffer
            } else {
                Classification::Resource
            };
            let descriptor = ParameterDescriptor {
                name: name.clone(),
                type_path: clone_segments(segments),
                mutable,
                classification,
            };
            Ok(descriptor)
        },
    }
}

/// Copies a path's segments.
pub(crate) fn clone_segments(segments: &Vec<PathSegment>) -> (r: Vec<PathSegment>)
    ensures
        segments_view(r@) == segments_view(segments@),
{
    let mut r: Vec<PathSegment> = Vec::new();
    let mut i: usize = 0;
    while i < segments.len()
        invariant
            i <= segments.len(),
            r@.len() == i,
            forall|j: int| 0 <= j < i ==> r@[j]@ == segments@[j]@,
        decreases segments.len() - i,
    {
        let segment = &segments[i];
        r.push(PathSegment { name: segment.name.clone(), arguments: segment.arguments.clone() });
        i = i + 1;
    }
    proof {
        assert(segments_view(r@) =~= segments_view(segments@));
    }
    r
}

/// Classifies a whole definition into a [`SystemDescriptor`], resolving the
/// two injected-handle bindings, or rejects it with the first error found.
pub fn classify(def: &SystemDef) -> (r: Result<SystemDescriptor, GenError>)
    ensures
        r is Ok <==> spec_classify(def@) is Ok,
        r matches Ok(desc) ==> Ok::<_, GenError>(desc@) == spec_classify(def@),
        r matches Err(e) ==> Err::<SpecSystemDescriptor, _>(e) == spec_classify(def@),
{
    if def.generic_count > 0 {
        return Err(GenError::UnsupportedGenerics);
    }
    let ghost spec_params = params_view(def.params@);
    let mut descriptors: Vec<ParameterDescriptor> = Vec::new();
    let mut cmd_binding: Option<String> = None;
    let mut world_binding: Option<String> = None;
    let mut i: usize = 0;
    proof {
        assert(spec_params.take(0) =~= Seq::<SpecParamDecl>::empty());
        assert(descriptors_view(descriptors@) =~= Seq::<SpecParameterDescriptor>::empty());
    }
    while i < def.params.len()
        invariant
            i <= def.params.len(),
            def.generic_count == 0,
            spec_params == params_view(def.params@),
            spec_classify_params(spec_params.take(i as int)) == Ok::<_, GenError>(
                descriptors_view(descriptors@),
            ),
            opt_name_view(cmd_binding) == spec_last_named(
                descriptors_view(descriptors@),
                Classification::InjectedCommandBuffer,
            ),
            opt_name_view(world_binding) == spec_last_named(
                descriptors_view(descriptors@),
                Classification::InjectedWorldSnapshot,
            ),
        decreases def.params.len() - i,
    {
        let ghost old_descs = descriptors_view(descriptors@);
        let d = match classify_param(&def.params[i]) {
            Ok(d) => d,
            Err(e) => {
                proof {
                    lemma_classify_params_take_error(spec_params, i as int, e);
                }
                return Err(e);
            },
        };
        match d.classification {
            Classification::InjectedCommandBuffer => {
                cmd_binding = Some(d.name.clone());
            },
            Classification::InjectedWorldSnapshot => {
                world_binding = Some(d.name.clone());
            },
            Classification::Resource => {},
        }
        let ghost dv = d@;
        descriptors.push(d);
        proof {
            assert(spec_params.take(i + 1 as int).drop_last() =~= spec_params.take(i as int));
            assert(spec_params.take(i + 1 as int).last() == spec_params[i as int]);
            assert(descriptors_view(descriptors@) =~= old_descs.push(dv));
            assert(old_descs.push(dv).drop_last() =~= old_descs);
            assert(old_descs.push(dv).last() == dv);
        }
        i = i + 1;
    }
    proof {
        assert(spec_params.take(spec_params.len() as int) =~= spec_params);
    }
    let command_buffer_binding = match cmd_binding {
        Some(name) => name,
        None => String::from_str("cmd_buf"),
    };
    let world_snapshot_binding = match world_binding {
        Some(name) => name,
        None => String::from_str("world"),
    };
    Ok(
        SystemDescriptor {
            name: def.name.clone(),
            parameters: descriptors,
            command_buffer_binding,
            world_snapshot_binding,
        },
    )
}

/// The view of an optionally resolved binding name.
spec fn opt_name_view(o: Option<String>) -> Option<Seq<char>> {
    match o {
        Some(name) => Some(name@),
        None => None,
    }
}

/// An offending parameter at index `i`, with every earlier parameter in
/// order, rejects the whole prefix that ends just past it.
proof fn lemma_classify_params_take_error(ps: Seq<SpecParamDecl>, i: int, e: GenError)
    requires
        0 <= i < ps.len(),
        spec_classify_params(ps.take(i)) is Ok,
        spec_classify_param(ps[i]) == Err::<SpecParameterDescriptor, _>(e),
    ensures
        spec_classify_params(ps) == Err::<Seq<SpecParameterDescriptor>, _>(e),
{
    assert(ps.take(i + 1).drop_last() =~= ps.take(i));
    assert(ps.take(i + 1).last() == ps[i]);
    assert(spec_classify_params(ps.take(i + 1)) == Err::<Seq<SpecParameterDescriptor>, _>(e));
    if i + 1 == ps.len() {
        assert(ps.take(i + 1) =~= ps);
    } else {
        lemma_classify_params_error_extends(ps, i + 1, e);
    }
}

/// An error on a prefix propagates to the whole list.
proof fn lemma_classify_params_error_extends(ps: Seq<SpecParamDecl>, j: int, e: GenError)
    requires
        0 <= j <= ps.len(),
        spec_classify_params(ps.take(j)) == Err::<Seq<SpecParameterDescriptor>, _>(e),
    ensures
        spec_classify_params(ps) == Err::<Seq<SpecParameterDescriptor>, _>(e),
    decreases ps.len() - j,
{
    if j == ps.len() {
        assert(ps.take(j) =~= ps);
    } else {
        assert(ps.take(j + 1).drop_last() =~= ps.take(j));
        lemma_classify_params_error_extends(ps, j + 1, e);
    }
}

} // verus!
