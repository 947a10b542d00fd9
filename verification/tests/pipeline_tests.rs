use cyclonedds_idlc::ast::{IdlScopedName, IdlSwitchCase, IdlSwitchElement, IdlSwitchLabel,
    IdlTypeDclKind, IdlTypeSpec, IdlValueExpr};
use cyclonedds_idlc::builder::{Context, Node, RuleKind};
use cyclonedds_idlc::Configuration;
use std::collections::HashMap;

fn leaf(rule: RuleKind, text: &str) -> Node {
    Node { rule, text: text.to_string(), children: vec![] }
}

fn node(rule: RuleKind, text: &str, children: Vec<Node>) -> Node {
    Node { rule, text: text.to_string(), children }
}

fn typed_member(id: &str, type_node: Node) -> Node {
    node(RuleKind::Member, "", vec![
        type_node,
        node(RuleKind::Declarators, "", vec![node(RuleKind::Other, "", vec![node(
            RuleKind::SimpleDeclarator,
            id,
            vec![leaf(RuleKind::Identifier, id)],
        )])]),
    ])
}

#[test]
fn a_topic_struct_gets_keyed_descriptors() {
    let config = Configuration::new(HashMap::new(), false, false, "msg.idl".to_string(), true);
    let mut ctx = Context::new(&config);
    let mut scope: Vec<String> = vec![];

    let spec_tree = node(RuleKind::Specification, "", vec![
        node(RuleKind::StructDef, "", vec![
            leaf(RuleKind::Identifier, "Msg"),
            typed_member("userID", leaf(RuleKind::SignedLongInt, "long")),
            typed_member("message", leaf(RuleKind::StringType, "string")),
        ]),
        leaf(RuleKind::OtherDirective, "#pragma keylist Msg userID\n"),
    ]);
    ctx.process(&mut scope, &spec_tree).unwrap();

    let d = ctx
        .root_module
        .get_type_decl(&IdlScopedName(vec!["Msg".to_string()], false))
        .unwrap();
    match &d.0 {
        IdlTypeDclKind::StructDcl(_, members, is_topic) => {
            assert!(*is_topic);
            assert!(members[0].is_key);
            assert!(!members[1].is_key);
        }
        _ => panic!("expected a struct declaration"),
    }

    assert_eq!(d.total_op_count(&ctx.root_module).unwrap(), 5);
    let ops = d.get_meta_op(&ctx.root_module).unwrap();
    assert_eq!(ops.len(), 3);
    assert_eq!(
        ops[0],
        "DDS_OP_ADR | DDS_OP_TYPE_4BY | DDS_OP_FLAG_SGN  | DDS_OP_FLAG_KEY , offsetof!(Msg,userID) as u32"
    );
    assert_eq!(
        ops[1],
        "DDS_OP_ADR | DDS_OP_TYPE_STR  , offsetof!(Msg,message) as u32"
    );
    assert_eq!(ops[2], "DDS_OP_RTS");

    let table = d.key_descriptor_table(&ctx.root_module).unwrap();
    assert_eq!(table.len(), 1);
    assert_eq!(table[0].0, "userID");
    assert_eq!(table[0].1, 0);
}

#[test]
fn a_keylist_in_a_module_scope_applies_there() {
    let config = Configuration::new(HashMap::new(), false, false, "m.idl".to_string(), false);
    let mut ctx = Context::new(&config);
    let mut scope: Vec<String> = vec![];
    let tree = node(RuleKind::ModuleDcl, "", vec![
        leaf(RuleKind::Identifier, "Outer"),
        node(RuleKind::StructDef, "", vec![
            leaf(RuleKind::Identifier, "T"),
            typed_member("k", leaf(RuleKind::OctetType, "octet")),
        ]),
        leaf(RuleKind::OtherDirective, "#pragma keylist T k"),
    ]);
    ctx.process(&mut scope, &tree).unwrap();
    let d = ctx
        .root_module
        .get_type_decl(&IdlScopedName(vec!["Outer".to_string(), "T".to_string()], true))
        .unwrap();
    match &d.0 {
        IdlTypeDclKind::StructDcl(_, members, is_topic) => {
            assert!(*is_topic);
            assert!(members[0].is_key);
        }
        _ => panic!("expected a struct declaration"),
    }
    // the created scope records its nesting level
    assert_eq!(ctx.root_module.modules.len(), 1);
    assert_eq!(ctx.root_module.modules[0].0, "Outer");
    assert_eq!(ctx.root_module.modules[0].1.level, 1);
}

#[test]
fn switch_cases_render_one_arm_per_label() {
    let case = IdlSwitchCase {
        labels: vec![
            IdlSwitchLabel::Label(Box::new(IdlValueExpr::DecLiteral("1".to_string()))),
            IdlSwitchLabel::Default,
        ],
        elem_spec: Box::new(IdlSwitchElement {
            id: "flag".to_string(),
            type_spec: Box::new(IdlTypeSpec::BooleanType),
        }),
    };
    let mut out = String::new();
    case.write(&mut out, 1);
    assert_eq!(out, "    1{flag: bool,},\n    default{flag: bool,},\n");
}

#[test]
fn members_of_one_production_share_its_type() {
    let config = Configuration::new(HashMap::new(), false, false, "m.idl".to_string(), false);
    let mut ctx = Context::new(&config);
    let mut scope: Vec<String> = vec![];
    // struct P { short a, b; } declares two members of the same type
    let def = node(RuleKind::StructDef, "", vec![
        leaf(RuleKind::Identifier, "P"),
        node(RuleKind::Member, "", vec![
            leaf(RuleKind::SignedShortInt, "short"),
            node(RuleKind::Declarators, "", vec![
                node(RuleKind::Other, "", vec![node(RuleKind::SimpleDeclarator, "a", vec![leaf(
                    RuleKind::Identifier,
                    "a",
                )])]),
                node(RuleKind::Other, "", vec![node(RuleKind::SimpleDeclarator, "b", vec![leaf(
                    RuleKind::Identifier,
                    "b",
                )])]),
            ]),
        ]),
    ]);
    ctx.process(&mut scope, &def).unwrap();
    let d = ctx
        .root_module
        .get_type_decl(&IdlScopedName(vec!["P".to_string()], false))
        .unwrap();
    match &d.0 {
        IdlTypeDclKind::StructDcl(_, members, _) => {
            assert_eq!(members.len(), 2);
            assert_eq!(members[0].id, "a");
            assert_eq!(members[1].id, "b");
            assert!(matches!(*members[0].type_spec, IdlTypeSpec::I16Type));
            assert!(matches!(*members[1].type_spec, IdlTypeSpec::I16Type));
        }
        _ => panic!("expected a struct declaration"),
    }
}

#[test]
fn array_declarators_wrap_the_member_type() {
    let config = Configuration::new(HashMap::new(), false, false, "m.idl".to_string(), false);
    let mut ctx = Context::new(&config);
    let mut scope: Vec<String> = vec![];
    let dim = node(RuleKind::FixedArraySize, "[3]", vec![node(
        RuleKind::ConstExpr,
        "3",
        vec![node(RuleKind::PrimaryExpr, "3", vec![node(RuleKind::Literal, "3", vec![leaf(
            RuleKind::DecimalIntegerLiteral,
            "3",
        )])])],
    )]);
    let def = node(RuleKind::StructDef, "", vec![
        leaf(RuleKind::Identifier, "Q"),
        node(RuleKind::Member, "", vec![
            leaf(RuleKind::OctetType, "octet"),
            node(RuleKind::Declarators, "", vec![node(RuleKind::Other, "", vec![node(
                RuleKind::ArrayDeclarator,
                "buf[3]",
                vec![leaf(RuleKind::Identifier, "buf"), dim],
            )])]),
        ]),
    ]);
    ctx.process(&mut scope, &def).unwrap();
    let d = ctx
        .root_module
        .get_type_decl(&IdlScopedName(vec!["Q".to_string()], false))
        .unwrap();
    match &d.0 {
        IdlTypeDclKind::StructDcl(_, members, _) => {
            assert_eq!(members[0].id, "buf");
            let mut out = String::new();
            members[0].type_spec.write(&mut out);
            assert_eq!(out, "[u8;3]");
        }
        _ => panic!("expected a struct declaration"),
    }
}
