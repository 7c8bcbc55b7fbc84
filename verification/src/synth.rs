//! Registration synthesizer: turns a classified [`SystemDescriptor`] into a
//! [`RegistrationPlan`], the structured form of the emitted factory function.

use vstd::prelude::*;

use crate::classify::{
    descriptors_view, Classification, ParameterDescriptor, SpecParameterDescriptor,
    SpecSystemDescriptor, SystemDescriptor,
};
use crate::model::{segments_view, strings_view, PathSegment, SpecPathSegment};

verus! {

/// One builder-chain access declaration: `read_resource::<T>()` for a shared
/// borrow, `write_resource::<T>()` for an exclusive one.
#[derive(Debug, PartialEq, Eq)]
pub struct ResourceDecl {
    /// Whether the access is exclusive (a write).
    pub mutable: bool,
    /// The declared resource type's path segments.
    pub type_path: Vec<PathSegment>,
}

/// Mathematical image of [`ResourceDecl`].
pub struct SpecResourceDecl {
    pub mutable: bool,
    pub type_path: Seq<SpecPathSegment>,
}

impl View for ResourceDecl {
    type V = SpecResourceDecl;

    open spec fn view(&self) -> SpecResourceDecl {
        SpecResourceDecl { mutable: self.mutable, type_path: segments_view(self.type_path@) }
    }
}

/// The views of a sequence of access declarations.
pub open spec fn decls_view(v: Seq<ResourceDecl>) -> Seq<SpecResourceDecl> {
    v.map_values(|d: ResourceDecl| d@)
}

/// Everything the emitted factory function contains, short of the spliced
/// procedure body: the builder chain's access declarations, the two injected
/// handle bindings, and the closure's destructuring pattern, each in the
/// order the rendered text will carry.
#[derive(Debug, PartialEq, Eq)]
pub struct RegistrationPlan {
    /// The factory function's name: the procedure's own.
    pub name: String,
    /// The builder-chain access declarations, one per resource parameter, in
    /// declaration order.
    pub resource_decls: Vec<ResourceDecl>,
    /// The closure's first positional binding: the command-buffer handle.
    pub command_buffer_binding: String,
    /// The closure's second positional binding: the world-snapshot handle.
    pub world_snapshot_binding: String,
    /// The closure's destructuring-group identifiers, one per resource
    /// parameter, in declaration order.
    pub resource_bindings: Vec<String>,
}

/// Mathematical image of [`RegistrationPlan`].
pub struct SpecRegistrationPlan {
    pub name: Seq<char>,
    pub resource_decls: Seq<SpecResourceDecl>,
    pub command_buffer_binding: Seq<char>,
    pub world_snapshot_binding: Seq<char>,
    pub resource_bindings: Seq<Seq<char>>,
}

impl View for RegistrationPlan {
    type V = SpecRegistrationPlan;

    open spec fn view(&self) -> SpecRegistrationPlan {
        SpecRegistrationPlan {
            name: self.name@,
            resource_decls: decls_view(self.resource_decls@),
            command_buffer_binding: self.command_buffer_binding@,
            world_snapshot_binding: self.world_snapshot_binding@,
            resource_bindings: strings_view(self.resource_bindings@),
        }
    }
}

/// The subsequence of descriptors classified [`Classification::Resource`],
/// in declaration order.
pub open spec fn resource_params(
    descriptors: Seq<SpecParameterDescriptor>,
) -> Seq<SpecParameterDescriptor>
    decreases descriptors.len(),
{
    if descriptors.len() == 0 {
        Seq::empty()
    } else if descriptors.last().classification == Classification::Resource {
        resource_params(descriptors.drop_last()).push(descriptors.last())
    } else {
        resource_params(descriptors.drop_last())
    }
}

/// The access declaration a resource parameter contributes to the builder
/// chain.
pub open spec fn spec_decl_of(d: SpecParameterDescriptor) -> SpecResourceDecl {
    SpecResourceDecl { mutable: d.mutable, type_path: d.type_path }
}

/// The access declarations the resource descriptors contribute, in order.
pub open spec fn decls_of(ds: Seq<SpecParameterDescriptor>) -> Seq<SpecResourceDecl> {
    ds.map_values(|d: SpecParameterDescriptor| spec_decl_of(d))
}

/// The binding names of the resource descriptors, in order.
pub open spec fn names_of(ds: Seq<SpecParameterDescriptor>) -> Seq<Seq<char>> {
    ds.map_values(|d: SpecParameterDescriptor| d.name)
}

/// The plan a classified system synthesizes to: one access declaration and
/// one destructuring binding per resource parameter, both in declaration
/// order, with the resolved handle bindings passed through.
pub open spec fn spec_synthesize(desc: SpecSystemDescriptor) -> SpecRegistrationPlan {
    SpecRegistrationPlan {
        name: desc.name,
        resource_decls: decls_of(resource_params(desc.parameters)),
        command_buffer_binding: desc.command_buffer_binding,
        world_snapshot_binding: desc.world_snapshot_binding,
        resource_bindings: names_of(resource_params(desc.parameters)),
    }
}

/// Synthesizes the registration plan of a classified system.
pub fn synthesize(desc: &SystemDescriptor) -> (plan: RegistrationPlan)
    ensures
        plan@ == spec_synthesize(desc@),
{
    let ghost spec_descs = descriptors_view(desc.parameters@);
    let mut resource_decls: Vec<ResourceDecl> = Vec::new();
    let mut resource_bindings: Vec<String> = Vec::new();
    let mut i: usize = 0;
    proof {
        assert(spec_descs.take(0) =~= Seq::<SpecParameterDescriptor>::empty());
        assert(decls_view(resource_decls@) =~= Seq::<SpecResourceDecl>::empty());
        assert(strings_view(resource_bindings@) =~= Seq::<Seq<char>>::empty());
        assert(decls_of(Seq::<SpecParameterDescriptor>::empty()) =~= Seq::<SpecResourceDecl>::empty());
        assert(names_of(Seq::<SpecParameterDescriptor>::empty()) =~= Seq::<Seq<char>>::empty());
    }
    while i < desc.parameters.len()
        invariant
            i <= desc.parameters.len(),
            spec_descs == descriptors_view(desc.parameters@),
            decls_view(resource_decls@) == decls_of(resource_params(spec_descs.take(i as int))),
            strings_view(resource_bindings@) == names_of(
                resource_params(spec_descs.take(i as int)),
            ),
        decreases desc.parameters.len() - i,
    {
        let d = &desc.parameters[i];
        proof {
            assert(spec_descs.take(i + 1 as int).drop_last() =~= spec_descs.take(i as int));
            assert(spec_descs.take(i + 1 as int).last() == d@);
        }
        match d.classification {
            Classification::Resource => {
                let ghost old_decls = decls_view(resource_decls@);
                let ghost old_binds = strings_view(resource_bindings@);
                resource_decls.push(
                    ResourceDecl {
                        mutable: d.mutable,
                        type_path: crate::classify::clone_segments(&d.type_path),
                    },
                );
                resource_bindings.push(d.name.clone());
                proof {
                    assert(decls_view(resource_decls@) =~= old_decls.push(spec_decl_of(d@)));
                    assert(strings_view(resource_bindings@) =~= old_binds.push(d@.name));
                    assert(resource_params(spec_descs.take(i + 1 as int)) == resource_params(
                        spec_descs.take(i as int),
                    ).push(d@));
                    assert(decls_of(resource_params(spec_descs.take(i + 1 as int))) =~= old_decls.push(
                        spec_decl_of(d@),
                    ));
                    assert(names_of(resource_params(spec_descs.take(i + 1 as int))) =~= old_binds.push(
                        d@.name,
                    ));
                }
            },
            _ => {
                proof {
                    assert(resource_params(spec_descs.take(i + 1 as int)) == resource_params(
                        spec_descs.take(i as int),
                    ));
                }
            },
        }
        i = i + 1;
    }
    proof {
        assert(spec_descs.take(spec_descs.len() as int) =~= spec_descs);
    }
    RegistrationPlan {
        name: desc.name.clone(),
        resource_decls,
        command_buffer_binding: desc.command_buffer_binding.clone(),
        world_snapshot_binding: desc.world_snapshot_binding.clone(),
        resource_bindings,
    }
}

} // verus!

