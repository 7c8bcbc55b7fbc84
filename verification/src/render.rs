//! Rendering: turns a [`RegistrationPlan`] into the source text of the
//! emitted factory function, and ties classifier, synthesizer and renderer
//! together into one generation step.
//!
//! The procedure's body is spliced into the text verbatim: the renderer never
//! reads it, it only places it inside the synthesized closure.

use vstd::prelude::*;

use crate::classify::{classify, spec_classify, GenError};
use crate::model::{segments_view, strings_view, PathSegment, SpecPathSegment, SpecSystemDef, SystemDef};
use crate::synth::{
    decls_view, spec_synthesize, synthesize, RegistrationPlan, ResourceDecl,
    SpecRegistrationPlan, SpecResourceDecl,
};

verus! {

/// One path segment's text: its identifier followed by its verbatim
/// argument text, if any.
pub open spec fn spec_render_segment(segment: SpecPathSegment) -> Seq<char> {
    segment.name + segment.arguments
}

/// A path's segments joined by `::`.
pub open spec fn spec_render_path(path: Seq<SpecPathSegment>) -> Seq<char>
    decreases path.len(),
{
    if path.len() == 0 {
        Seq::empty()
    } else if path.len() == 1 {
        spec_render_segment(path[0])
    } else {
        spec_render_path(path.drop_last()) + "::"@ + spec_render_segment(path.last())
    }
}

/// The builder-chain call one access declaration renders to.
pub open spec fn spec_render_decl(d: SpecResourceDecl) -> Seq<char> {
    (if d.mutable {
        ".write_resource::<"@
    } else {
        ".read_resource::<"@
    }) + spec_render_path(d.type_path) + ">()"@
}

/// The whole builder chain's access calls, in order, each preceded by one
/// space.
pub open spec fn spec_render_decls(decls: Seq<SpecResourceDecl>) -> Seq<char>
    decreases decls.len(),
{
    if decls.len() == 0 {
        Seq::empty()
    } else {
        spec_render_decls(decls.drop_last()) + " "@ + spec_render_decl(decls.last())
    }
}

/// The destructuring group's identifiers joined by `, `.
pub open spec fn spec_render_group(names: Seq<Seq<char>>) -> Seq<char>
    decreases names.len(),
{
    if names.len() == 0 {
        Seq::empty()
    } else if names.len() == 1 {
        names[0]
    } else {
        spec_render_group(names.drop_last()) + ", "@ + names.last()
    }
}

/// The source text of the emitted factory function: a zero-argument function
/// under the system's own name that builds a boxed schedulable out of the
/// declared accesses and a closure around the spliced body.
pub open spec fn spec_render(plan: SpecRegistrationPlan, body: Seq<char>) -> Seq<char> {
    "fn "@ + plan.name
        + "() -> Box<dyn legion::system::Schedulable> { legion::system::SystemBuilder::<()>::new(\"\")"@
        + spec_render_decls(plan.resource_decls) + " .build(|"@ + plan.command_buffer_binding
        + ", "@ + plan.world_snapshot_binding + ", ("@ + spec_render_group(plan.resource_bindings)
        + "), _: &mut ()| { "@ + body + " }) }"@
}

/// What a whole definition generates: the registration plan, or the error
/// that rejects it.
pub open spec fn spec_generate(def: SpecSystemDef) -> Result<SpecRegistrationPlan, GenError> {
    match spec_classify(def) {
        Err(e) => Err(e),
        Ok(desc) => Ok(spec_synthesize(desc)),
    }
}

/// Renders a path's segments joined by `::`.
fn render_path(path: &Vec<PathSegment>) -> (r: String)
    ensures
        r@ == spec_render_path(segments_view(path@)),
{
    let ghost sv = segments_view(path@);
    let mut r = String::new();
    let mut i: usize = 0;
    proof {
        assert(sv.take(0) =~= Seq::<SpecPathSegment>::empty());
    }
    while i < path.len()
        invariant
            i <= path.len(),
            sv == segments_view(path@),
            r@ == spec_render_path(sv.take(i as int)),
        decreases path.len() - i,
    {
        if i > 0 {
            r.append("::");
        }
        r.append(path[i].name.as_str());
        r.append(path[i].arguments.as_str());
        proof {
            assert(sv.take(i + 1 as int).drop_last() =~= sv.take(i as int));
            assert(sv.take(i + 1 as int).last() == sv[i as int]);
            if i == 0 {
                assert(r@ =~= spec_render_path(sv.take(1)));
            }
        }
        i = i + 1;
    }
    proof {
        assert(sv.take(sv.len() as int) =~= sv);
    }
    r
}

/// Renders the builder chain's access calls, in order.
fn render_decls(decls: &Vec<ResourceDecl>) -> (r: String)
    ensures
        r@ == spec_render_decls(decls_view(decls@)),
{
    let ghost dv = decls_view(decls@);
    let mut r = String::new();
    let mut i: usize = 0;
    proof {
        assert(dv.take(0) =~= Seq::<SpecResourceDecl>::empty());
    }
    while i < decls.len()
        invariant
            i <= decls.len(),
            dv == decls_view(decls@),
            r@ == spec_render_decls(dv.take(i as int)),
        decreases decls.len() - i,
    {
        let d = &decls[i];
        r.append(" ");
        if d.mutable {
            r.append(".write_resource::<");
        } else {
            r.append(".read_resource::<");
        }
        let path = render_path(&d.type_path);
        r.append(path.as_str());
        r.append(">()");
        proof {
            assert(dv.take(i + 1 as int).drop_last() =~= dv.take(i as int));
            assert(dv.take(i + 1 as int).last() == dv[i as int]);
            assert(r@ =~= spec_render_decls(dv.take(i + 1 as int)));
        }
        i = i + 1;
    }
    proof {
        assert(dv.take(dv.len() as int) =~= dv);
    }
    r
}

/// Renders the destructuring group's identifiers joined by `, `.
fn render_group(names: &Vec<String>) -> (r: String)
    ensures
        r@ == spec_render_group(strings_view(names@)),
{
    let ghost nv = strings_view(names@);
    let mut r = String::new();
    let mut i: usize = 0;
    proof {
        assert(nv.take(0) =~= Seq::<Seq<char>>::empty());
    }
    while i < names.len()
        invariant
            i <= names.len(),
            nv == strings_view(names@),
            r@ == spec_render_group(nv.take(i as int)),
        decreases names.len() - i,
    {
        if i > 0 {
            r.append(", ");
        }
        r.append(names[i].as_str());
        proof {
            assert(nv.take(i + 1 as int).drop_last() =~= nv.take(i as int));
            assert(nv.take(i + 1 as int).last() == nv[i as int]);
            if i == 0 {
                assert(r@ =~= spec_render_group(nv.take(1)));
            }
        }
        i = i + 1;
    }
    proof {
        assert(nv.take(nv.len() as int) =~= nv);
    }
    r
}

/// Renders a registration plan around the verbatim body text of the original
/// procedure.
pub fn render(plan: &RegistrationPlan, body: &str) -> (r: String)
    ensures
        r@ == spec_render(plan@, body@),
{
    let mut r = String::from_str("fn ");
    r.append(plan.name.as_str());
    r.append(
        "() -> Box<dyn legion::system::Schedulable> { legion::system::SystemBuilder::<()>::new(\"\")",
    );
    let decls = render_decls(&plan.resource_decls);
    r.append(decls.as_str());
    r.append(" .build(|");
    r.append(plan.command_buffer_binding.as_str());
    r.append(", ");
    r.append(plan.world_snapshot_binding.as_str());
    r.append(", (");
    let group = render_group(&plan.resource_bindings);
    r.append(group.as_str());
    r.append("), _: &mut ()| { ");
    r.append(body);
    r.append(" }) }");
    proof {
        assert(r@ =~= spec_render(plan@, body@));
    }
    r
}

/// Classifies a definition and synthesizes its registration plan, or rejects
/// it with the first error the classifier finds.
pub fn generate_plan(def: &SystemDef) -> (r: Result<RegistrationPlan, GenError>)
    ensures
        r is Ok <==> spec_generate(def@) is Ok,
        r matches Ok(plan) ==> Ok::<_, GenError>(plan@) == spec_generate(def@),
        r matches Err(e) ==> Err::<SpecRegistrationPlan, _>(e) == spec_generate(def@),
{
    let desc = match classify(def) {
        Ok(desc) => desc,
        Err(e) => {
            return Err(e);
        },
    };
    Ok(synthesize(&desc))
}

/// Generates the factory function's full source text for one definition,
/// splicing the procedure's body text in verbatim, or rejects the definition
/// with the first error the classifier finds.
pub fn generate(def: &SystemDef, body: &str) -> (r: Result<String, GenError>)
    ensures
        r is Ok <==> spec_generate(def@) is Ok,
        r matches Ok(text) ==> spec_generate(def@) matches Ok(plan) && text@ == spec_render(
            plan,
            body@,
        ),
        r matches Err(e) ==> Err::<SpecRegistrationPlan, _>(e) == spec_generate(def@),
{
    let plan = match generate_plan(def) {
        Ok(plan) => plan,
        Err(e) => {
            return Err(e);
        },
    };
    Ok(render(&plan, body))
}

} // verus!
