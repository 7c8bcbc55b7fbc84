//! Laws the transform obeys, each stated and proved over the mathematical
//! model that the executable functions' contracts speak of.

use vstd::prelude::*;

use crate::classify::{
    default_command_buffer_binding, default_world_binding, spec_classify, spec_classify_param,
    spec_classify_params, spec_last_named, Classification, GenError, SpecParameterDescriptor,
    SpecSystemDescriptor,
};
use crate::model::{SpecParamDecl, SpecSystemDef};
use crate::render::{spec_generate, spec_render, spec_render_decls, spec_render_group};
use crate::synth::{
    decls_of, names_of, resource_params, spec_decl_of, spec_synthesize, SpecRegistrationPlan,
    SpecResourceDecl,
};

verus! {

/// Whether a classified parameter is a resource access.
pub open spec fn resource_pred() -> spec_fn(SpecParameterDescriptor) -> bool {
    |d: SpecParameterDescriptor| d.classification == Classification::Resource
}

/// The resource subsequence is the ordered filter of the descriptor list:
/// exactly the `Resource`-classified descriptors, kept in declaration order.
pub proof fn lemma_resource_params_is_filter(ds: Seq<SpecParameterDescriptor>)
    ensures
        resource_params(ds) == ds.filter(resource_pred()),
    decreases ds.len(),
{
    reveal(Seq::filter);
    if ds.len() == 0 {
        assert(resource_params(ds) =~= ds.filter(resource_pred()));
    } else {
        lemma_resource_params_is_filter(ds.drop_last());
    }
}

/// For every classified system, the builder chain holds exactly one access
/// declaration per `Resource`-classified parameter, and each declaration
/// carries that parameter's own mutability (a write access for an exclusive
/// borrow, a read access for a shared one) and its own type path.
pub proof fn lemma_access_declarations_match_parameters(desc: SpecSystemDescriptor)
    ensures
        spec_synthesize(desc).resource_decls.len() == desc.parameters.filter(
            resource_pred(),
        ).len(),
        forall|i: int|
            0 <= i < spec_synthesize(desc).resource_decls.len() ==> (#[trigger] spec_synthesize(
                desc,
            ).resource_decls[i]).mutable == resource_params(desc.parameters)[i].mutable
                && spec_synthesize(desc).resource_decls[i].type_path == resource_params(
                desc.parameters,
            )[i].type_path,
{
    lemma_resource_params_is_filter(desc.parameters);
}

/// The destructuring group's identifiers, the builder chain's access
/// declarations, and the `Resource`-classified parameters all stand in the
/// same order: position `i` of each belongs to one and the same declared
/// parameter, and that shared order is declaration order (the resource
/// subsequence is the ordered filter of the parameter list).
pub proof fn lemma_order_preserved(desc: SpecSystemDescriptor)
    ensures
        spec_synthesize(desc).resource_bindings.len() == resource_params(desc.parameters).len(),
        spec_synthesize(desc).resource_decls.len() == resource_params(desc.parameters).len(),
        forall|i: int|
            0 <= i < resource_params(desc.parameters).len() ==> spec_synthesize(
                desc,
            ).resource_bindings[i] == (#[trigger] resource_params(desc.parameters)[i]).name
                && spec_synthesize(desc).resource_decls[i] == spec_decl_of(
                resource_params(desc.parameters)[i],
            ),
        resource_params(desc.parameters) == desc.parameters.filter(resource_pred()),
{
    lemma_resource_params_is_filter(desc.parameters);
}

/// A classified parameter list whose entries all classify successfully is
/// classified pointwise, in order.
proof fn lemma_classify_params_ok_pointwise(ps: Seq<SpecParamDecl>)
    requires
        spec_classify_params(ps) is Ok,
    ensures
        spec_classify_params(ps)->Ok_0.len() == ps.len(),
        forall|i: int|
            0 <= i < ps.len() ==> spec_classify_param(#[trigger] ps[i]) is Ok
                && spec_classify_params(ps)->Ok_0[i] == spec_classify_param(ps[i])->Ok_0,
    decreases ps.len(),
{
    if ps.len() > 0 {
        lemma_classify_params_ok_pointwise(ps.drop_last());
        let prev = spec_classify_params(ps.drop_last())->Ok_0;
        let d = spec_classify_param(ps.last())->Ok_0;
        assert(spec_classify_params(ps)->Ok_0 == prev.push(d));
        assert forall|i: int|
            0 <= i < ps.len() implies spec_classify_param(#[trigger] ps[i]) is Ok
            && spec_classify_params(ps)->Ok_0[i] == spec_classify_param(ps[i])->Ok_0 by {
            if i < ps.len() - 1 {
                assert(ps.drop_last()[i] == ps[i]);
                assert(prev.push(d)[i] == prev[i]);
            } else {
                assert(ps[i] == ps.last());
                assert(prev.push(d)[i] == d);
            }
        }
    }
}

/// No descriptor of the given classification means no resolved binding of it.
proof fn lemma_last_named_none(ds: Seq<SpecParameterDescriptor>, c: Classification)
    requires
        forall|i: int| 0 <= i < ds.len() ==> (#[trigger] ds[i]).classification != c,
    ensures
        spec_last_named(ds, c) is None,
    decreases ds.len(),
{
    if ds.len() > 0 {
        lemma_last_named_none(ds.drop_last(), c);
    }
}

/// A descriptor list made of resources alone is its own resource subsequence.
proof fn lemma_resource_params_all(ds: Seq<SpecParameterDescriptor>)
    requires
        forall|i: int|
            0 <= i < ds.len() ==> (#[trigger] ds[i]).classification == Classification::Resource,
    ensures
        resource_params(ds) == ds,
    decreases ds.len(),
{
    if ds.len() > 0 {
        lemma_resource_params_all(ds.drop_last());
        assert(resource_params(ds) =~= ds);
    }
}

/// A system that declares no injected-handle parameter gets the default
/// binding names for both handles, and its resource handling is untouched:
/// the chain and the destructuring group still cover every parameter, in
/// declaration order.
pub proof fn lemma_omitted_handles_use_defaults(def: SpecSystemDef)
    requires
        spec_classify(def) is Ok,
        forall|i: int|
            0 <= i < def.params.len() ==> (spec_classify_param(
                #[trigger] def.params[i],
            ) matches Ok(d) && d.classification == Classification::Resource),
    ensures
        spec_classify(def)->Ok_0.command_buffer_binding == default_command_buffer_binding(),
        spec_classify(def)->Ok_0.world_snapshot_binding == default_world_binding(),
        spec_generate(def) matches Ok(plan) && plan.resource_decls == decls_of(
            spec_classify(def)->Ok_0.parameters,
        ) && plan.resource_bindings == names_of(spec_classify(def)->Ok_0.parameters),
{
    let ds = spec_classify_params(def.params)->Ok_0;
    lemma_classify_params_ok_pointwise(def.params);
    assert forall|i: int| 0 <= i < ds.len() implies (#[trigger] ds[i]).classification
        == Classification::Resource by {
        assert(ds[i] == spec_classify_param(def.params[i])->Ok_0);
    }
    lemma_last_named_none(ds, Classification::InjectedCommandBuffer);
    lemma_last_named_none(ds, Classification::InjectedWorldSnapshot);
    lemma_resource_params_all(ds);
}

/// Resource handling is a function of the `Resource`-classified parameters
/// alone: two classified systems with the same resource subsequence generate
/// the same access declarations and the same destructuring group.
pub proof fn lemma_resources_determine_handling(a: SpecSystemDescriptor, b: SpecSystemDescriptor)
    requires
        resource_params(a.parameters) == resource_params(b.parameters),
    ensures
        spec_synthesize(a).resource_decls == spec_synthesize(b).resource_decls,
        spec_synthesize(a).resource_bindings == spec_synthesize(b).resource_bindings,
{
}

/// Parameter-list classification distributes over concatenation, and the
/// earlier part's error wins.
proof fn lemma_classify_params_add(a: Seq<SpecParamDecl>, b: Seq<SpecParamDecl>)
    ensures
        spec_classify_params(a + b) == (match spec_classify_params(a) {
            Err(e) => Err::<Seq<SpecParameterDescriptor>, GenError>(e),
            Ok(da) => match spec_classify_params(b) {
                Err(e) => Err(e),
                Ok(db) => Ok(da + db),
            },
        }),
    decreases b.len(),
{
    if b.len() == 0 {
        assert(a + b =~= a);
        if spec_classify_params(a) is Ok {
            assert(spec_classify_params(a)->Ok_0 + b.map_values(
                |p: SpecParamDecl| spec_classify_param(p)->Ok_0,
            ) =~= spec_classify_params(a)->Ok_0);
            assert(spec_classify_params(a)->Ok_0 + spec_classify_params(b)->Ok_0
                =~= spec_classify_params(a)->Ok_0);
        }
    } else {
        lemma_classify_params_add(a, b.drop_last());
        assert((a + b).drop_last() =~= a + b.drop_last());
        assert((a + b).last() == b.last());
        if spec_classify_params(a) is Ok && spec_classify_params(b) is Ok {
            let da = spec_classify_params(a)->Ok_0;
            let db = spec_classify_params(b.drop_last())->Ok_0;
            let d = spec_classify_param(b.last())->Ok_0;
            assert(da + db.push(d) =~= (da + db).push(d));
        }
    }
}

/// The resource subsequence distributes over concatenation.
proof fn lemma_resource_params_add(a: Seq<SpecParameterDescriptor>, b: Seq<SpecParameterDescriptor>)
    ensures
        resource_params(a + b) == resource_params(a) + resource_params(b),
    decreases b.len(),
{
    if b.len() == 0 {
        assert(a + b =~= a);
        assert(resource_params(a) + resource_params(b) =~= resource_params(a));
    } else {
        lemma_resource_params_add(a, b.drop_last());
        assert((a + b).drop_last() =~= a + b.drop_last());
        assert((a + b).last() == b.last());
        if b.last().classification == Classification::Resource {
            assert(resource_params(a) + resource_params(b.drop_last()).push(b.last()) =~= (
            resource_params(a) + resource_params(b.drop_last())).push(b.last()));
        }
    }
}

/// Binding resolution looks at the later part first: the last declared handle
/// of a kind wins.
proof fn lemma_last_named_add(
    a: Seq<SpecParameterDescriptor>,
    b: Seq<SpecParameterDescriptor>,
    c: Classification,
)
    ensures
        spec_last_named(a + b, c) == (match spec_last_named(b, c) {
            Some(name) => Some(name),
            None => spec_last_named(a, c),
        }),
    decreases b.len(),
{
    if b.len() == 0 {
        assert(a + b =~= a);
    } else {
        lemma_last_named_add(a, b.drop_last(), c);
        assert((a + b).drop_last() =~= a + b.drop_last());
        assert((a + b).last() == b.last());
    }
}

/// Classification of a two-parameter list whose entries both classify
/// successfully.
proof fn lemma_classify_params_pair(x: SpecParamDecl, y: SpecParamDecl)
    requires
        spec_classify_param(x) is Ok,
        spec_classify_param(y) is Ok,
    ensures
        spec_classify_params(seq![x, y]) == Ok::<_, GenError>(
            seq![spec_classify_param(x)->Ok_0, spec_classify_param(y)->Ok_0],
        ),
{
    let dx = spec_classify_param(x)->Ok_0;
    let dy = spec_classify_param(y)->Ok_0;
    assert(seq![x, y].drop_last() =~= seq![x]);
    assert(seq![x, y].last() == y);
    assert(seq![x].drop_last() =~= Seq::<SpecParamDecl>::empty());
    assert(seq![x].last() == x);
    assert(spec_classify_params(Seq::<SpecParamDecl>::empty()) == Ok::<_, GenError>(
        Seq::<SpecParameterDescriptor>::empty(),
    ));
    assert(spec_classify_params(seq![x]) == Ok::<_, GenError>(
        Seq::<SpecParameterDescriptor>::empty().push(dx),
    ));
    assert(Seq::<SpecParameterDescriptor>::empty().push(dx).push(dy) =~= seq![dx, dy]);
    assert(spec_classify_params(seq![x, y]) == Ok::<_, GenError>(seq![dx, dy]));
}

/// Declaring the command-buffer handle and the world-snapshot handle in
/// either relative order generates the same registration: two definitions
/// that agree everywhere but in which of the two adjacent handle parameters
/// comes first generate the same plan, or fail with the same error.
pub proof fn lemma_handle_order_independence(
    a: SpecSystemDef,
    b: SpecSystemDef,
    prefix: Seq<SpecParamDecl>,
    cb: SpecParamDecl,
    ws: SpecParamDecl,
    suffix: Seq<SpecParamDecl>,
)
    requires
        a.name == b.name,
        a.generic_count == b.generic_count,
        a.params == prefix + seq![cb, ws] + suffix,
        b.params == prefix + seq![ws, cb] + suffix,
        spec_classify_param(cb) matches Ok(d) && d.classification
            == Classification::InjectedCommandBuffer,
        spec_classify_param(ws) matches Ok(d) && d.classification
            == Classification::InjectedWorldSnapshot,
    ensures
        spec_generate(a) == spec_generate(b),
{
    let dcb = spec_classify_param(cb)->Ok_0;
    let dws = spec_classify_param(ws)->Ok_0;
    lemma_classify_params_pair(cb, ws);
    lemma_classify_params_pair(ws, cb);
    lemma_classify_params_add(prefix, seq![cb, ws]);
    lemma_classify_params_add(prefix, seq![ws, cb]);
    lemma_classify_params_add(prefix + seq![cb, ws], suffix);
    lemma_classify_params_add(prefix + seq![ws, cb], suffix);
    if a.generic_count > 0 {
    } else if spec_classify_params(prefix) is Err {
    } else if spec_classify_params(suffix) is Err {
    } else {
        let dp = spec_classify_params(prefix)->Ok_0;
        let dsx = spec_classify_params(suffix)->Ok_0;
        let da = dp + seq![dcb, dws] + dsx;
        let db = dp + seq![dws, dcb] + dsx;
        assert(spec_classify_params(a.params) == Ok::<_, GenError>(da));
        assert(spec_classify_params(b.params) == Ok::<_, GenError>(db));
        // the two handles contribute nothing to the resource subsequence
        lemma_resource_params_add(dp + seq![dcb, dws], dsx);
        lemma_resource_params_add(dp + seq![dws, dcb], dsx);
        lemma_resource_params_add(dp, seq![dcb, dws]);
        lemma_resource_params_add(dp, seq![dws, dcb]);
        assert(seq![dcb, dws].drop_last() =~= seq![dcb]);
        assert(seq![dcb, dws].last() == dws);
        assert(seq![dws, dcb].drop_last() =~= seq![dws]);
        assert(seq![dws, dcb].last() == dcb);
        assert(seq![dcb].drop_last() =~= Seq::<SpecParameterDescriptor>::empty());
        assert(seq![dcb].last() == dcb);
        assert(seq![dws].drop_last() =~= Seq::<SpecParameterDescriptor>::empty());
        assert(seq![dws].last() == dws);
        let none_descs = Seq::<SpecParameterDescriptor>::empty();
        assert(resource_params(none_descs) == none_descs);
        assert(resource_params(seq![dcb]) == none_descs);
        assert(resource_params(seq![dws]) == none_descs);
        assert(resource_params(seq![dcb, dws]) == none_descs);
        assert(resource_params(seq![dws, dcb]) == none_descs);
        assert(resource_params(da) =~= resource_params(db));
        // either handle binding resolves to the same name in both orders
        lemma_last_named_add(dp + seq![dcb, dws], dsx, Classification::InjectedCommandBuffer);
        lemma_last_named_add(dp + seq![dws, dcb], dsx, Classification::InjectedCommandBuffer);
        lemma_last_named_add(dp, seq![dcb, dws], Classification::InjectedCommandBuffer);
        lemma_last_named_add(dp, seq![dws, dcb], Classification::InjectedCommandBuffer);
        lemma_last_named_add(dp + seq![dcb, dws], dsx, Classification::InjectedWorldSnapshot);
        lemma_last_named_add(dp + seq![dws, dcb], dsx, Classification::InjectedWorldSnapshot);
        lemma_last_named_add(dp, seq![dcb, dws], Classification::InjectedWorldSnapshot);
        lemma_last_named_add(dp, seq![dws, dcb], Classification::InjectedWorldSnapshot);
        let cbc = Classification::InjectedCommandBuffer;
        let wsc = Classification::InjectedWorldSnapshot;
        assert(spec_last_named(none_descs, cbc) is None);
        assert(spec_last_named(none_descs, wsc) is None);
        assert(spec_last_named(seq![dcb], cbc) == Some(dcb.name));
        assert(spec_last_named(seq![dws], cbc) is None);
        assert(spec_last_named(seq![dcb], wsc) is None);
        assert(spec_last_named(seq![dws], wsc) == Some(dws.name));
        assert(spec_last_named(seq![dcb, dws], cbc) == Some(dcb.name));
        assert(spec_last_named(seq![dws, dcb], cbc) == Some(dcb.name));
        assert(spec_last_named(seq![dcb, dws], wsc) == Some(dws.name));
        assert(spec_last_named(seq![dws, dcb], wsc) == Some(dws.name));
        assert(spec_last_named(da, cbc) == spec_last_named(db, cbc));
        assert(spec_last_named(da, wsc) == spec_last_named(db, wsc));
        assert(spec_generate(a)->Ok_0 == spec_generate(b)->Ok_0);
    }
}

/// A system with no resource parameters generates a builder chain with no
/// access calls and a closure whose destructuring group is empty; neither
/// contributes any rendered text.
pub proof fn lemma_no_resource_parameters_empty_chain(desc: SpecSystemDescriptor)
    requires
        forall|i: int|
            0 <= i < desc.parameters.len() ==> (#[trigger] desc.parameters[i]).classification
                != Classification::Resource,
    ensures
        spec_synthesize(desc).resource_decls.len() == 0,
        spec_synthesize(desc).resource_bindings.len() == 0,
        spec_render_decls(spec_synthesize(desc).resource_decls) == Seq::<char>::empty(),
        spec_render_group(spec_synthesize(desc).resource_bindings) == Seq::<char>::empty(),
{
    lemma_last_named_none(desc.parameters, Classification::Resource);
    lemma_resource_params_none(desc.parameters);
}

/// No resource-classified descriptor means an empty resource subsequence.
proof fn lemma_resource_params_none(ds: Seq<SpecParameterDescriptor>)
    requires
        forall|i: int|
            0 <= i < ds.len() ==> (#[trigger] ds[i]).classification != Classification::Resource,
    ensures
        resource_params(ds).len() == 0,
    decreases ds.len(),
{
    if ds.len() > 0 {
        lemma_resource_params_none(ds.drop_last());
    }
}

/// The procedure's body is spliced into the rendered factory verbatim: it
/// stands in the output as one contiguous, untouched stretch of text, however
/// the system was classified.
pub proof fn lemma_body_spliced_verbatim(plan: SpecRegistrationPlan, body: Seq<char>)
    ensures
        exists|k: int|
            0 <= k && k + body.len() <= spec_render(plan, body).len() && #[trigger] spec_render(
                plan,
                body,
            ).subrange(k, k + body.len()) == body,
{
    let before = "fn "@ + plan.name
        + "() -> Box<dyn legion::system::Schedulable> { legion::system::SystemBuilder::<()>::new(\"\")"@
        + spec_render_decls(plan.resource_decls) + " .build(|"@ + plan.command_buffer_binding
        + ", "@ + plan.world_snapshot_binding + ", ("@ + spec_render_group(plan.resource_bindings)
        + "), _: &mut ()| { "@;
    let k = before.len() as int;
    assert(spec_render(plan, body).subrange(k, k + body.len()) =~= body);
}

/// A definition with generic parameters is rejected outright, before any
/// parameter is looked at, and no factory is generated for it.
pub proof fn lemma_generics_rejected(def: SpecSystemDef)
    requires
        def.generic_count > 0,
    ensures
        spec_generate(def) == Err::<SpecRegistrationPlan, GenError>(GenError::UnsupportedGenerics),
{
}

/// One offending parameter rejects the whole list.
proof fn lemma_classify_params_err_at(ps: Seq<SpecParamDecl>, i: int)
    requires
        0 <= i < ps.len(),
        spec_classify_param(ps[i]) is Err,
    ensures
        spec_classify_params(ps) is Err,
    decreases ps.len(),
{
    if i < ps.len() - 1 {
        assert(ps.drop_last()[i] == ps[i]);
        lemma_classify_params_err_at(ps.drop_last(), i);
    }
}

/// A definition with a receiver-style parameter is rejected, and no factory
/// is generated for it.
pub proof fn lemma_receiver_rejected(def: SpecSystemDef, i: int)
    requires
        0 <= i < def.params.len(),
        def.params[i] is Receiver,
    ensures
        spec_generate(def) is Err,
{
    if def.generic_count <= 0 {
        lemma_classify_params_err_at(def.params, i);
    }
}

} // verus!
