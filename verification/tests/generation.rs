//! End-to-end tests of the classify → synthesize → render transform.

use cohort::classify::{classify, classify_param, Classification, GenError};
use cohort::model::{ElemShape, ParamDecl, PathSegment, PatShape, SystemDef, TyShape};
use cohort::render::{generate, generate_plan, render};
use cohort::synth::synthesize;

fn segment(name: &str) -> PathSegment {
    PathSegment {
        name: name.to_string(),
        arguments: String::new(),
    }
}

fn borrow_param(name: &str, mutable: bool, path: &[&str]) -> ParamDecl {
    ParamDecl::Typed {
        pat: PatShape::Ident(name.to_string()),
        ty: TyShape::Borrow {
            mutable,
            elem: ElemShape::Path(path.iter().map(|s| segment(s)).collect()),
        },
    }
}

fn def(name: &str, params: Vec<ParamDecl>) -> SystemDef {
    SystemDef {
        name: name.to_string(),
        generic_count: 0,
        params,
    }
}

#[test]
fn shared_and_exclusive_resources_end_to_end() {
    // One shared resource and one exclusive resource, as in a system that
    // reads `TestResource1` and bumps `TestResource2`.
    let d = def(
        "test_system",
        vec![
            borrow_param("test1", false, &["TestResource1"]),
            borrow_param("test2", true, &["TestResource2"]),
        ],
    );
    let plan = generate_plan(&d).unwrap();
    assert_eq!(plan.name, "test_system");
    assert_eq!(plan.resource_decls.len(), 2);
    assert!(!plan.resource_decls[0].mutable);
    assert_eq!(plan.resource_decls[0].type_path, vec![segment("TestResource1")]);
    assert!(plan.resource_decls[1].mutable);
    assert_eq!(plan.resource_decls[1].type_path, vec![segment("TestResource2")]);
    assert_eq!(
        plan.resource_bindings,
        vec!["test1".to_string(), "test2".to_string()]
    );
    assert_eq!(plan.command_buffer_binding, "cmd_buf");
    assert_eq!(plan.world_snapshot_binding, "world");

    let text = render(&plan, "{ assert_eq!(test1.0, 1); test2.0 += 1; }");
    let expected = "fn test_system() -> Box<dyn legion::system::Schedulable> { legion::system::SystemBuilder::<()>::new(\"\") .read_resource::<TestResource1>() .write_resource::<TestResource2>() .build(|cmd_buf, world, (test1, test2), _: &mut ()| { { assert_eq!(test1.0, 1); test2.0 += 1; } }) }";
    assert_eq!(text, expected);
}

#[test]
fn read_then_write_chain_order_matches_declaration_order() {
    let d = def(
        "example",
        vec![
            borrow_param("r1", false, &["R1"]),
            borrow_param("r2", true, &["R2"]),
        ],
    );
    let text = generate(&d, "{ body }").unwrap();
    let read_at = text.find(".read_resource::<R1>()").unwrap();
    let write_at = text.find(".write_resource::<R2>()").unwrap();
    assert!(read_at < write_at);
    assert!(text.contains("(r1, r2)"));
}

#[test]
fn body_is_spliced_verbatim() {
    let d = def("s", vec![]);
    let body = "{ let weird = \"unchanged :: tokens\"; weird.len(); }";
    let text = generate(&d, body).unwrap();
    assert!(text.contains(body));
}

#[test]
fn zero_resources_empty_chain_and_group() {
    let d = def(
        "no_resources",
        vec![
            borrow_param("cmd", true, &["CommandBuffer"]),
            borrow_param("w", false, &["PreparedWorld"]),
        ],
    );
    let plan = generate_plan(&d).unwrap();
    assert_eq!(plan.resource_decls.len(), 0);
    assert_eq!(plan.resource_bindings.len(), 0);
    let text = render(&plan, "{}");
    let expected = "fn no_resources() -> Box<dyn legion::system::Schedulable> { legion::system::SystemBuilder::<()>::new(\"\") .build(|cmd, w, (), _: &mut ()| { {} }) }";
    assert_eq!(text, expected);
}

#[test]
fn omitted_handles_get_default_bindings() {
    let d = def("defaults", vec![borrow_param("res", false, &["Res"])]);
    let plan = generate_plan(&d).unwrap();
    assert_eq!(plan.command_buffer_binding, "cmd_buf");
    assert_eq!(plan.world_snapshot_binding, "world");
    assert_eq!(plan.resource_bindings, vec!["res".to_string()]);
    assert_eq!(plan.resource_decls.len(), 1);
}

#[test]
fn handle_order_is_irrelevant() {
    let cb = borrow_param("commands", true, &["CommandBuffer"]);
    let ws = borrow_param("snapshot", false, &["PreparedWorld"]);
    let cb2 = borrow_param("commands", true, &["CommandBuffer"]);
    let ws2 = borrow_param("snapshot", false, &["PreparedWorld"]);
    let a = def(
        "sys",
        vec![
            borrow_param("a", false, &["A"]),
            cb,
            ws,
            borrow_param("b", true, &["B"]),
        ],
    );
    let b = def(
        "sys",
        vec![
            borrow_param("a", false, &["A"]),
            ws2,
            cb2,
            borrow_param("b", true, &["B"]),
        ],
    );
    let plan_a = generate_plan(&a).unwrap();
    let plan_b = generate_plan(&b).unwrap();
    assert_eq!(plan_a, plan_b);
    assert_eq!(generate(&a, "{}").unwrap(), generate(&b, "{}").unwrap());
}

#[test]
fn declared_handles_name_the_closure_parameters() {
    let d = def(
        "named",
        vec![
            borrow_param("my_cmd", true, &["CommandBuffer"]),
            borrow_param("my_world", false, &["PreparedWorld"]),
            borrow_param("r", true, &["R"]),
        ],
    );
    let plan = generate_plan(&d).unwrap();
    assert_eq!(plan.command_buffer_binding, "my_cmd");
    assert_eq!(plan.world_snapshot_binding, "my_world");
    let text = render(&plan, "{}");
    assert!(text.contains(".build(|my_cmd, my_world, (r), _: &mut ()|"));
}

#[test]
fn duplicate_command_buffers_last_wins() {
    let d = def(
        "dup",
        vec![
            borrow_param("first", true, &["CommandBuffer"]),
            borrow_param("second", true, &["CommandBuffer"]),
        ],
    );
    let plan = generate_plan(&d).unwrap();
    assert_eq!(plan.command_buffer_binding, "second");
    assert_eq!(plan.resource_decls.len(), 0);
}

#[test]
fn markers_match_on_last_segment_only() {
    // A qualified path still names the handle by its simple name.
    let qualified = classify_param(&borrow_param("c", true, &["legion", "CommandBuffer"]))
        .unwrap();
    assert_eq!(qualified.classification, Classification::InjectedCommandBuffer);
    // The reserved name matters only in the last segment.
    let shadowed = classify_param(&borrow_param("x", false, &["PreparedWorld", "Inner"]))
        .unwrap();
    assert_eq!(shadowed.classification, Classification::Resource);
    // A similar but distinct simple name is an ordinary resource.
    let near_miss = classify_param(&borrow_param("x", false, &["MyCommandBuffer"])).unwrap();
    assert_eq!(near_miss.classification, Classification::Resource);
}

#[test]
fn generic_arguments_are_reproduced_verbatim() {
    // A resource type may carry generic arguments; they are retained
    // unread, like the body, and reproduced in the generated chain.
    let d = def(
        "generic_resource",
        vec![ParamDecl::Typed {
            pat: PatShape::Ident("table".to_string()),
            ty: TyShape::Borrow {
                mutable: false,
                elem: ElemShape::Path(vec![PathSegment {
                    name: "Lookup".to_string(),
                    arguments: "<u32, Name>".to_string(),
                }]),
            },
        }],
    );
    let text = generate(&d, "{}").unwrap();
    assert!(text.contains(".read_resource::<Lookup<u32, Name>>()"));
}

#[test]
fn multi_segment_resource_path_renders_qualified() {
    let d = def(
        "qualified",
        vec![borrow_param("counter", true, &["game", "state", "Counter"])],
    );
    let text = generate(&d, "{}").unwrap();
    assert!(text.contains(".write_resource::<game::state::Counter>()"));
}

#[test]
fn generic_system_is_rejected() {
    let d = SystemDef {
        name: "generic".to_string(),
        generic_count: 1,
        params: vec![borrow_param("r", false, &["R"])],
    };
    assert_eq!(generate_plan(&d), Err(GenError::UnsupportedGenerics));
    assert_eq!(generate(&d, "{}"), Err(GenError::UnsupportedGenerics));
}

#[test]
fn receiver_system_is_rejected() {
    let d = def(
        "method",
        vec![ParamDecl::Receiver, borrow_param("r", false, &["R"])],
    );
    assert_eq!(generate_plan(&d), Err(GenError::UnsupportedReceiver));
}

#[test]
fn generics_check_comes_before_parameters() {
    let d = SystemDef {
        name: "both".to_string(),
        generic_count: 2,
        params: vec![ParamDecl::Receiver],
    };
    assert_eq!(generate_plan(&d), Err(GenError::UnsupportedGenerics));
}

#[test]
fn non_borrow_parameter_is_rejected() {
    let d = def(
        "by_value",
        vec![ParamDecl::Typed {
            pat: PatShape::Ident("r".to_string()),
            ty: TyShape::NotBorrow,
        }],
    );
    assert_eq!(generate_plan(&d), Err(GenError::InvalidParameterShape));
}

#[test]
fn borrow_of_non_path_is_rejected() {
    let d = def(
        "slice_arg",
        vec![ParamDecl::Typed {
            pat: PatShape::Ident("r".to_string()),
            ty: TyShape::Borrow {
                mutable: false,
                elem: ElemShape::NotPath,
            },
        }],
    );
    assert_eq!(generate_plan(&d), Err(GenError::InvalidParameterShape));
}

#[test]
fn non_identifier_pattern_is_rejected() {
    let d = def(
        "tuple_pattern",
        vec![ParamDecl::Typed {
            pat: PatShape::Other,
            ty: TyShape::Borrow {
                mutable: false,
                elem: ElemShape::Path(vec![segment("R")]),
            },
        }],
    );
    assert_eq!(generate_plan(&d), Err(GenError::InvalidParameterShape));
}

#[test]
fn empty_path_is_rejected() {
    let d = def(
        "empty_path",
        vec![ParamDecl::Typed {
            pat: PatShape::Ident("r".to_string()),
            ty: TyShape::Borrow {
                mutable: false,
                elem: ElemShape::Path(vec![]),
            },
        }],
    );
    assert_eq!(generate_plan(&d), Err(GenError::InvalidParameterShape));
}

#[test]
fn first_offending_parameter_reports_its_error() {
    // The receiver stands after an invalid shape: the earlier error wins.
    let d = def(
        "ordering",
        vec![
            ParamDecl::Typed {
                pat: PatShape::Ident("r".to_string()),
                ty: TyShape::NotBorrow,
            },
            ParamDecl::Receiver,
        ],
    );
    assert_eq!(generate_plan(&d), Err(GenError::InvalidParameterShape));
}

#[test]
fn error_messages_identify_the_construct() {
    assert_eq!(
        GenError::UnsupportedGenerics.message(),
        "systems may not have generic parameters"
    );
    assert_eq!(
        GenError::UnsupportedReceiver.message(),
        "systems may not accept `self` parameters"
    );
    assert_eq!(
        GenError::InvalidParameterShape.message(),
        "system parameters must be identifiers bound to a read or write borrow of a named type"
    );
}

#[test]
fn classifier_keeps_declaration_order_and_mutability() {
    let d = def(
        "mixed",
        vec![
            borrow_param("a", true, &["A"]),
            borrow_param("cmd", true, &["CommandBuffer"]),
            borrow_param("b", false, &["B"]),
            borrow_param("w", false, &["PreparedWorld"]),
            borrow_param("c", true, &["C"]),
        ],
    );
    let desc = classify(&d).unwrap();
    assert_eq!(desc.parameters.len(), 5);
    let classifications: Vec<Classification> =
        desc.parameters.iter().map(|p| p.classification).collect();
    assert_eq!(
        classifications,
        vec![
            Classification::Resource,
            Classification::InjectedCommandBuffer,
            Classification::Resource,
            Classification::InjectedWorldSnapshot,
            Classification::Resource,
        ]
    );
    let plan = synthesize(&desc);
    assert_eq!(
        plan.resource_bindings,
        vec!["a".to_string(), "b".to_string(), "c".to_string()]
    );
    assert_eq!(plan.resource_decls.len(), 3);
    assert!(plan.resource_decls[0].mutable);
    assert!(!plan.resource_decls[1].mutable);
    assert!(plan.resource_decls[2].mutable);
}

#[test]
fn handle_mutability_does_not_change_its_classification() {
    let d = def(
        "mutable_world",
        vec![
            borrow_param("w", true, &["PreparedWorld"]),
            borrow_param("c", false, &["CommandBuffer"]),
        ],
    );
    let plan = generate_plan(&d).unwrap();
    assert_eq!(plan.world_snapshot_binding, "w");
    assert_eq!(plan.command_buffer_binding, "c");
    assert_eq!(plan.resource_decls.len(), 0);
}
