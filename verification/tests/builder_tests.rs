use cyclonedds_idlc::ast::{IdlScopedName, IdlTypeDclKind, IdlTypeSpec, IdlValueExpr, UnaryOp};
use cyclonedds_idlc::builder::{Context, Node, RuleKind};
use cyclonedds_idlc::c_generator::{header_macro_name, scoped_name};
use cyclonedds_idlc::text::{join_comma, split_spaces, str_eq, trim_end_blanks};
use cyclonedds_idlc::{load_idl, Configuration, IdlError};
use std::collections::HashMap;

fn leaf(rule: RuleKind, text: &str) -> Node {
    Node { rule, text: text.to_string(), children: vec![] }
}

fn node(rule: RuleKind, text: &str, children: Vec<Node>) -> Node {
    Node { rule, text: text.to_string(), children }
}

fn ident(text: &str) -> Node {
    leaf(RuleKind::Identifier, text)
}

fn simple_declarator(id: &str) -> Node {
    node(RuleKind::Declarators, "", vec![node(
        RuleKind::Other,
        "",
        vec![node(RuleKind::SimpleDeclarator, id, vec![ident(id)])],
    )])
}

fn long_member(id: &str) -> Node {
    node(RuleKind::Member, "", vec![leaf(RuleKind::SignedLongInt, "long"), simple_declarator(id)])
}

fn struct_def(name: &str, members: Vec<Node>) -> Node {
    let mut children = vec![ident(name)];
    children.extend(members);
    node(RuleKind::StructDef, "", children)
}

fn new_context() -> Context {
    let config = Configuration::new(HashMap::new(), false, false, "test.idl".to_string(), false);
    Context::new(&config)
}

#[test]
fn a_struct_definition_declares_a_struct() {
    let mut ctx = new_context();
    let mut scope: Vec<String> = vec![];
    let def = struct_def("Foo", vec![long_member("bar"), long_member("baz")]);
    ctx.process(&mut scope, &def).unwrap();
    let d = ctx
        .root_module
        .get_type_decl(&IdlScopedName(vec!["Foo".to_string()], false))
        .unwrap();
    match &d.0 {
        IdlTypeDclKind::StructDcl(id, members, is_topic) => {
            assert_eq!(id, "Foo");
            assert_eq!(members.len(), 2);
            assert_eq!(members[0].id, "bar");
            assert_eq!(members[1].id, "baz");
            assert!(!*is_topic);
            assert!(!members[0].is_key);
        }
        _ => panic!("expected a struct declaration"),
    }
}

#[test]
fn modules_nest_and_resolution_walks_from_the_root() {
    let mut ctx = new_context();
    let mut scope: Vec<String> = vec![];
    let tree = node(
        RuleKind::ModuleDcl,
        "",
        vec![ident("Outer"), struct_def("Inner", vec![long_member("x")])],
    );
    ctx.process(&mut scope, &tree).unwrap();
    assert!(scope.is_empty());
    let found = ctx
        .root_module
        .get_type_decl(&IdlScopedName(vec!["Outer".to_string(), "Inner".to_string()], true));
    assert!(found.is_some());
    let missing = ctx
        .root_module
        .get_type_decl(&IdlScopedName(vec!["Unknown".to_string(), "Inner".to_string()], false));
    assert!(missing.is_none());
}

#[test]
fn declaring_a_name_twice_keeps_the_first_declaration() {
    let mut ctx = new_context();
    let mut scope: Vec<String> = vec![];
    ctx.process(&mut scope, &struct_def("Foo", vec![long_member("first")])).unwrap();
    ctx.process(&mut scope, &struct_def("Foo", vec![long_member("second"), long_member("third")]))
        .unwrap();
    let d = ctx
        .root_module
        .get_type_decl(&IdlScopedName(vec!["Foo".to_string()], false))
        .unwrap();
    match &d.0 {
        IdlTypeDclKind::StructDcl(_, members, _) => {
            assert_eq!(members.len(), 1);
            assert_eq!(members[0].id, "first");
        }
        _ => panic!("expected a struct declaration"),
    }
}

#[test]
fn keylist_directive_marks_topic_and_keys() {
    let mut ctx = new_context();
    let mut scope: Vec<String> = vec![];
    let def = struct_def("Foo", vec![long_member("bar"), long_member("baz"), long_member("qux")]);
    ctx.process(&mut scope, &def).unwrap();
    let pragma = leaf(RuleKind::OtherDirective, "#pragma keylist Foo bar baz\n");
    ctx.process(&mut scope, &pragma).unwrap();
    let d = ctx
        .root_module
        .get_type_decl(&IdlScopedName(vec!["Foo".to_string()], false))
        .unwrap();
    match &d.0 {
        IdlTypeDclKind::StructDcl(_, members, is_topic) => {
            assert!(*is_topic);
            assert!(members[0].is_key);
            assert!(members[1].is_key);
            assert!(!members[2].is_key);
        }
        _ => panic!("expected a struct declaration"),
    }
}

#[test]
fn keylist_with_missing_key_reports_and_changes_nothing() {
    let mut ctx = new_context();
    let mut scope: Vec<String> = vec![];
    let def = struct_def("Foo", vec![long_member("bar")]);
    ctx.process(&mut scope, &def).unwrap();
    let pragma = leaf(RuleKind::OtherDirective, "#pragma keylist Foo bar nope");
    let r = ctx.process(&mut scope, &pragma);
    match r {
        Err(IdlError::KeyNotFound(s)) => assert_eq!(s, "bar,nope"),
        _ => panic!("expected the missing keys to be reported"),
    }
    let d = ctx
        .root_module
        .get_type_decl(&IdlScopedName(vec!["Foo".to_string()], false))
        .unwrap();
    match &d.0 {
        IdlTypeDclKind::StructDcl(_, members, is_topic) => {
            assert!(!*is_topic);
            assert!(!members[0].is_key);
        }
        _ => panic!("expected a struct declaration"),
    }
}

#[test]
fn unknown_directives_are_ignored() {
    let mut ctx = new_context();
    let mut scope: Vec<String> = vec![];
    let pragma = leaf(RuleKind::OtherDirective, "#pragma something else");
    assert!(ctx.process(&mut scope, &pragma).is_ok());
}

#[test]
fn constant_expressions_keep_their_source_text() {
    let lit = node(
        RuleKind::ConstExpr,
        "",
        vec![node(RuleKind::UnaryExpr, "", vec![
            leaf(RuleKind::Other, "-"),
            node(RuleKind::PrimaryExpr, "", vec![node(RuleKind::Literal, "", vec![leaf(
                RuleKind::HexIntegerLiteral,
                "0x2A",
            )])]),
        ])],
    );
    let ctx = new_context();
    let scope: Vec<String> = vec![];
    let t = ctx.read_type_spec(&scope, &leaf(RuleKind::StringType, "string"));
    let t = t.unwrap();
    assert!(matches!(*t, IdlTypeSpec::StringType(None)));
    let mut ctx2 = new_context();
    let mut scope2: Vec<String> = vec![];
    let const_dcl = node(RuleKind::ConstDcl, "", vec![
        leaf(RuleKind::SignedLongInt, "long"),
        ident("ANSWER"),
        lit,
    ]);
    ctx2.process(&mut scope2, &const_dcl).unwrap();
    let c = &ctx2.root_module.constants[0];
    assert_eq!(c.0, "ANSWER");
    let mut out = String::new();
    c.1.value.write(&mut out);
    assert_eq!(out, "-0x2A");
    match &*c.1.value {
        IdlValueExpr::UnaryOp(UnaryOp::Neg, inner) => match &**inner {
            IdlValueExpr::HexLiteral(s) => assert_eq!(s, "0x2A"),
            _ => panic!("expected the hex literal to be kept"),
        },
        _ => panic!("expected a negation"),
    }
}

#[test]
fn renderings_of_values_and_types() {
    let mut out = String::new();
    IdlValueExpr::FloatLiteral(
        Some("1".to_string()),
        Some("5".to_string()),
        Some("3".to_string()),
        Some("f".to_string()),
    )
    .write(&mut out);
    assert_eq!(out, "1.5e3f");

    let mut out = String::new();
    IdlValueExpr::Brace(Box::new(IdlValueExpr::DecLiteral("7".to_string()))).write(&mut out);
    assert_eq!(out, "(7)");

    let mut out = String::new();
    IdlScopedName(vec!["A".to_string(), "B".to_string()], true).write(&mut out);
    assert_eq!(out, "crate::A::B");

    let mut out = String::new();
    IdlScopedName(vec!["A".to_string(), "B".to_string()], false).write(&mut out);
    assert_eq!(out, "A::B");

    let mut out = String::new();
    IdlTypeSpec::ArrayType(
        Box::new(IdlTypeSpec::I32Type),
        vec![IdlValueExpr::DecLiteral("3".to_string()), IdlValueExpr::DecLiteral("4".to_string())],
    )
    .write(&mut out);
    assert_eq!(out, "[[i32;3];4]");

    let mut out = String::new();
    IdlTypeSpec::StringType(None).write(&mut out);
    assert_eq!(out, "*mut ::std::os::raw::c_char");

    let mut out = String::new();
    IdlTypeSpec::SequenceType(Box::new(IdlTypeSpec::U16Type), None).write(&mut out);
    assert_eq!(out, "dds_sequence_t");
}

#[test]
fn text_utilities() {
    assert!(str_eq("abc", "abc"));
    assert!(!str_eq("abc", "abd"));
    assert_eq!(trim_end_blanks("a b \t\n"), "a b");
    // the trim removes any trailing Unicode white space, not only ASCII
    assert_eq!(trim_end_blanks("a b\u{00A0}\u{2003}\u{3000}"), "a b");
    let parts = split_spaces("#pragma keylist Foo bar");
    assert_eq!(parts.len(), 4);
    assert_eq!(parts[0], "#pragma");
    assert_eq!(parts[3], "bar");
    // splitting on one space keeps empty parts between neighbours
    let parts = split_spaces("a  b");
    assert_eq!(parts.len(), 3);
    assert_eq!(parts[1], "");
    assert_eq!(join_comma(&vec!["bar".to_string(), "baz".to_string()]), "bar,baz");
    assert_eq!(join_comma(&vec![]), "");
}

#[test]
fn c_naming_helpers() {
    assert_eq!(header_macro_name("hello"), "_DDSL_HELLO_H_");
    assert_eq!(
        scoped_name(&vec!["outer".to_string(), "inner".to_string()], "Msg"),
        "outer_inner_Msg"
    );
}

#[test]
fn configuration_and_preload() {
    let mut defs = HashMap::new();
    defs.insert("KEY".to_string(), "1".to_string());
    let config = Configuration::new(defs, true, false, "x.idl".to_string(), true);
    assert!(config.verbose);
    assert!(!config.generate_c);
    assert!(config.generate_descriptors);
    assert_eq!(config.idl_name, "x.idl");
    assert_eq!(config.definition.get("KEY").map(|s| s.as_str()), Some("1"));
    assert_eq!(load_idl(&config, "anything").unwrap(), "");
}

#[test]
fn enums_and_unions_are_declared() {
    let mut ctx = new_context();
    let mut scope: Vec<String> = vec![];
    let enum_dcl = node(RuleKind::EnumDcl, "", vec![
        ident("Color"),
        leaf(RuleKind::Enumerator, "RED"),
        leaf(RuleKind::Enumerator, "GREEN"),
    ]);
    ctx.process(&mut scope, &enum_dcl).unwrap();
    let d = ctx
        .root_module
        .get_type_decl(&IdlScopedName(vec!["Color".to_string()], false))
        .unwrap();
    match &d.0 {
        IdlTypeDclKind::EnumDcl(id, variants) => {
            assert_eq!(id, "Color");
            assert_eq!(variants.len(), 2);
            assert_eq!(variants[1], "GREEN");
        }
        _ => panic!("expected an enum declaration"),
    }

    let union_dcl = node(RuleKind::UnionDef, "", vec![
        ident("U"),
        node(RuleKind::SwitchTypeSpec, "", vec![leaf(RuleKind::SignedLongInt, "long")]),
        node(RuleKind::SwitchBody, "", vec![node(RuleKind::Other, "", vec![
            node(RuleKind::CaseLabel, "", vec![node(RuleKind::ConstExpr, "", vec![node(
                RuleKind::PrimaryExpr,
                "",
                vec![node(RuleKind::Literal, "", vec![leaf(RuleKind::DecimalIntegerLiteral, "1")])],
            )])]),
            node(RuleKind::ElementSpec, "", vec![
                leaf(RuleKind::BooleanType, "boolean"),
                node(RuleKind::Other, "", vec![node(RuleKind::SimpleDeclarator, "flag", vec![
                    ident("flag"),
                ])]),
            ]),
        ])]),
    ]);
    ctx.process(&mut scope, &union_dcl).unwrap();
    let d = ctx
        .root_module
        .get_type_decl(&IdlScopedName(vec!["U".to_string()], false))
        .unwrap();
    match &d.0 {
        IdlTypeDclKind::UnionDcl(id, disc, cases) => {
            assert_eq!(id, "U");
            assert!(matches!(**disc, IdlTypeSpec::I32Type));
            assert_eq!(cases.len(), 1);
            assert_eq!(cases[0].labels.len(), 1);
            assert_eq!(cases[0].elem_spec.id, "flag");
        }
        _ => panic!("expected a union declaration"),
    }
}

#[test]
fn type_declarators_declare_aliases() {
    let mut ctx = new_context();
    let mut scope: Vec<String> = vec![];
    let alias = node(RuleKind::TypeDeclarator, "", vec![
        leaf(RuleKind::UnsignedLongInt, "unsigned long"),
        node(RuleKind::Other, "", vec![
            node(RuleKind::Other, "", vec![node(RuleKind::SimpleDeclarator, "Counter", vec![
                ident("Counter"),
            ])]),
        ]),
    ]);
    ctx.process(&mut scope, &alias).unwrap();
    let d = ctx
        .root_module
        .get_type_decl(&IdlScopedName(vec!["Counter".to_string()], false))
        .unwrap();
    match &d.0 {
        IdlTypeDclKind::TypeDcl(id, t) => {
            assert_eq!(id, "Counter");
            assert!(matches!(**t, IdlTypeSpec::U32Type));
        }
        _ => panic!("expected an alias declaration"),
    }
}
