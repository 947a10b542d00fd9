use cyclonedds_idlc::ast::{
    IdlModule, IdlScopedName, IdlStructMember, IdlTypeDcl, IdlTypeDclKind, IdlTypeSpec,
};
use cyclonedds_idlc::IdlError;

fn member(id: &str, t: IdlTypeSpec) -> IdlStructMember {
    IdlStructMember { id: id.to_string(), type_spec: Box::new(t), is_key: false }
}

fn struct_decl(name: &str, members: Vec<IdlStructMember>) -> IdlTypeDcl {
    IdlTypeDcl(IdlTypeDclKind::StructDcl(name.to_string(), members, false))
}

fn empty_root() -> IdlModule {
    IdlModule::new(None, 0)
}

#[test]
fn basic_type() {
    let root = empty_root();
    let spec = IdlTypeSpec::I32Type;

    let ops = spec.get_meta_op("field", "StructName", false, &root).unwrap();
    assert_eq!(ops.len(), 1);
    assert_eq!(
        ops[0],
        "DDS_OP_ADR | DDS_OP_TYPE_4BY | DDS_OP_FLAG_SGN  , offsetof!(StructName,field) as u32"
    );
}

#[test]
fn cyclonedds_meta_basic_type() {
    let root = empty_root();
    let spec = IdlTypeSpec::I32Type;

    let ops = spec.get_meta_op("field", "StructName", false, &root).unwrap();
    assert_eq!(ops.len(), 1);
}

#[test]
fn key_field_carries_key_flag() {
    let root = empty_root();
    let ops = IdlTypeSpec::U64Type.get_meta_op("k", "S", true, &root).unwrap();
    assert_eq!(
        ops[0],
        "DDS_OP_ADR | DDS_OP_TYPE_8BY  | DDS_OP_FLAG_KEY , offsetof!(S,k) as u32"
    );
}

#[test]
fn sequence_of_string_op_line() {
    let root = empty_root();
    let seq_of_str = IdlTypeSpec::SequenceType(Box::new(IdlTypeSpec::StringType(None)), None);
    let ops = seq_of_str.get_meta_op("names", "S", false, &root).unwrap();
    assert_eq!(
        ops[0],
        "DDS_OP_ADR | DDS_OP_TYPE_SEQ | DDS_OP_SUBTYPE_STR ,offsetof!(S,names) as u32"
    );
}

#[test]
fn primitive_sizes_are_two() {
    let root = empty_root();
    assert_eq!(IdlTypeSpec::BooleanType.get_meta_op_size(&root).unwrap(), 2);
    assert_eq!(IdlTypeSpec::I16Type.get_meta_op_size(&root).unwrap(), 2);
    assert_eq!(IdlTypeSpec::F64Type.get_meta_op_size(&root).unwrap(), 2);
    assert_eq!(IdlTypeSpec::StringType(None).get_meta_op_size(&root).unwrap(), 2);
}

#[test]
fn container_sizes() {
    let root = empty_root();
    let arr_of_str = IdlTypeSpec::ArrayType(Box::new(IdlTypeSpec::StringType(None)), vec![]);
    assert_eq!(arr_of_str.get_meta_op_size(&root).unwrap(), 5);
    let arr_of_long = IdlTypeSpec::ArrayType(Box::new(IdlTypeSpec::I32Type), vec![]);
    assert_eq!(arr_of_long.get_meta_op_size(&root).unwrap(), 3);
    let seq_of_str = IdlTypeSpec::SequenceType(Box::new(IdlTypeSpec::StringType(None)), None);
    assert_eq!(seq_of_str.get_meta_op_size(&root).unwrap(), 2);
    let seq_of_octet = IdlTypeSpec::SequenceType(Box::new(IdlTypeSpec::OctetType), None);
    assert_eq!(seq_of_octet.get_meta_op_size(&root).unwrap(), 2);
}

#[test]
fn unsupported_kinds_fail_fast() {
    let root = empty_root();
    assert!(matches!(
        IdlTypeSpec::WideStringType(None).get_meta_op_size(&root),
        Err(IdlError::UnsupportedConstruct)
    ));
    assert!(matches!(
        IdlTypeSpec::F128Type.get_meta_op_size(&root),
        Err(IdlError::UnsupportedConstruct)
    ));
    assert!(matches!(
        IdlTypeSpec::WideCharType.get_meta_op_size(&root),
        Err(IdlError::UnsupportedConstruct)
    ));
    // a container of containers has no size formula
    let seq_of_seq = IdlTypeSpec::SequenceType(
        Box::new(IdlTypeSpec::SequenceType(Box::new(IdlTypeSpec::I32Type), None)),
        None,
    );
    assert!(matches!(
        seq_of_seq.get_meta_op_size(&root),
        Err(IdlError::UnsupportedConstruct)
    ));
}

#[test]
fn unimplemented_kinds_fail_in_opcode_generation() {
    let root = empty_root();
    assert!(matches!(
        IdlTypeSpec::WideStringType(None).get_meta_op("f", "S", false, &root),
        Err(IdlError::UnsupportedConstruct)
    ));
    assert!(matches!(
        IdlTypeSpec::F128Type.get_meta_op("f", "S", false, &root),
        Err(IdlError::UnsupportedConstruct)
    ));
    assert!(matches!(
        IdlTypeSpec::WideCharType.get_meta_op("f", "S", false, &root),
        Err(IdlError::UnsupportedConstruct)
    ));
    // a struct holding one is refused as a whole: no partial opcode list
    let d = struct_decl(
        "W",
        vec![member("a", IdlTypeSpec::I32Type), member("w", IdlTypeSpec::WideCharType)],
    );
    assert!(matches!(d.get_meta_op(&root), Err(IdlError::UnsupportedConstruct)));
}

#[test]
fn unresolved_scoped_name_is_fatal() {
    let root = empty_root();
    let t = IdlTypeSpec::ScopedName(IdlScopedName(
        vec!["Unknown".to_string(), "Inner".to_string()],
        false,
    ));
    assert!(matches!(
        t.get_meta_op_size(&root),
        Err(IdlError::UnresolvedScopedName)
    ));
    assert!(matches!(
        t.get_meta_op("f", "S", false, &root),
        Err(IdlError::UnresolvedScopedName)
    ));
}

#[test]
fn flat_struct_op_count_is_two_per_member_plus_terminator() {
    let root = empty_root();
    let d = struct_decl(
        "Msg",
        vec![
            member("a", IdlTypeSpec::I32Type),
            member("b", IdlTypeSpec::F64Type),
            member("c", IdlTypeSpec::BooleanType),
        ],
    );
    assert_eq!(d.total_op_count(&root).unwrap(), 7);
    let ops = d.get_meta_op(&root).unwrap();
    assert_eq!(ops.len(), 4);
    assert_eq!(ops[3], "DDS_OP_RTS");
}

#[test]
fn key_descriptor_table_of_single_key_struct() {
    let mut root = empty_root();
    let scope: Vec<String> = vec![];
    root.declare_type(&scope, "A".to_string(), struct_decl("A", vec![member("x", IdlTypeSpec::I32Type)]));
    root.set_topic_and_key_flags("A", &vec!["x".to_string()]).unwrap();
    let name = IdlScopedName(vec!["A".to_string()], false);
    let d = root.get_type_decl(&name).unwrap();
    let table = d.key_descriptor_table(&root).unwrap();
    assert_eq!(table.len(), 1);
    assert_eq!(table[0].0, "x");
    assert_eq!(table[0].1, 0);
}

#[test]
fn key_offsets_count_preceding_opcodes() {
    let mut root = empty_root();
    let scope: Vec<String> = vec![];
    root.declare_type(
        &scope,
        "T".to_string(),
        struct_decl(
            "T",
            vec![
                member("a", IdlTypeSpec::I32Type),
                member("b", IdlTypeSpec::I64Type),
                member("c", IdlTypeSpec::BooleanType),
            ],
        ),
    );
    root.set_topic_and_key_flags("T", &vec!["a".to_string(), "c".to_string()]).unwrap();
    let name = IdlScopedName(vec!["T".to_string()], false);
    let d = root.get_type_decl(&name).unwrap();
    let table = d.key_descriptor_table(&root).unwrap();
    assert_eq!(table.len(), 2);
    assert_eq!(table[0].0, "a");
    assert_eq!(table[0].1, 0);
    assert_eq!(table[1].0, "c");
    assert_eq!(table[1].1, 4);
}

#[test]
fn embedding_adds_no_boxing_opcode() {
    let mut root = empty_root();
    let scope: Vec<String> = vec![];
    root.declare_type(&scope, "A".to_string(), struct_decl("A", vec![member("x", IdlTypeSpec::I32Type)]));
    let inner_ref = IdlTypeSpec::ScopedName(IdlScopedName(vec!["A".to_string()], false));
    root.declare_type(
        &scope,
        "B".to_string(),
        struct_decl("B", vec![member("inner", inner_ref), member("y", IdlTypeSpec::I32Type)]),
    );
    let a = root.get_type_decl(&IdlScopedName(vec!["A".to_string()], false)).unwrap();
    let b = root.get_type_decl(&IdlScopedName(vec!["B".to_string()], false)).unwrap();
    // the total of B is A's member total (2), plus 2 for y, plus 1 terminator
    assert_eq!(a.total_op_count(&root).unwrap(), 3);
    assert_eq!(b.total_op_count(&root).unwrap(), 5);
    // the embedded member expands under the dotted field path
    let ops = b.get_meta_op(&root).unwrap();
    assert_eq!(ops.len(), 3);
    assert_eq!(
        ops[0],
        "DDS_OP_ADR | DDS_OP_TYPE_4BY | DDS_OP_FLAG_SGN  , offsetof!(B,inner.x) as u32"
    );
    assert_eq!(
        ops[1],
        "DDS_OP_ADR | DDS_OP_TYPE_4BY | DDS_OP_FLAG_SGN  , offsetof!(B,y) as u32"
    );
    assert_eq!(ops[2], "DDS_OP_RTS");
}

#[test]
fn array_of_struct_adds_a_header() {
    let mut root = empty_root();
    let scope: Vec<String> = vec![];
    root.declare_type(&scope, "A".to_string(), struct_decl("A", vec![member("x", IdlTypeSpec::I32Type)]));
    let arr = IdlTypeSpec::ArrayType(
        Box::new(IdlTypeSpec::ScopedName(IdlScopedName(vec!["A".to_string()], false))),
        vec![],
    );
    assert_eq!(arr.get_meta_op_size(&root).unwrap(), 8);
    let seq = IdlTypeSpec::SequenceType(
        Box::new(IdlTypeSpec::ScopedName(IdlScopedName(vec!["A".to_string()], false))),
        None,
    );
    assert_eq!(seq.get_meta_op_size(&root).unwrap(), 7);
}

#[test]
fn scoped_name_to_non_struct_is_unsupported() {
    let mut root = empty_root();
    let scope: Vec<String> = vec![];
    root.declare_type(
        &scope,
        "E".to_string(),
        IdlTypeDcl(IdlTypeDclKind::EnumDcl("E".to_string(), vec!["ONE".to_string()])),
    );
    let t = IdlTypeSpec::ScopedName(IdlScopedName(vec!["E".to_string()], false));
    assert!(matches!(t.get_meta_op_size(&root), Err(IdlError::UnsupportedConstruct)));
}

#[test]
fn get_num_ops_is_fixed() {
    assert_eq!(IdlTypeDcl::get_num_ops(), 5);
}

#[test]
fn c_types_and_sub_ops() {
    let root = empty_root();
    assert_eq!(IdlTypeSpec::I32Type.get_c_type(&root), "int32_t");
    assert_eq!(IdlTypeSpec::StringType(None).get_c_type(&root), "char *");
    let seq_t = IdlTypeSpec::SequenceType(Box::new(IdlTypeSpec::I32Type), None);
    assert_eq!(seq_t.get_c_type(&root), "dds_sequence_t");
    let arr_t = IdlTypeSpec::ArrayType(Box::new(IdlTypeSpec::U16Type), vec![]);
    assert_eq!(arr_t.get_c_type(&root), "uint16_t");
    let abs = IdlScopedName(vec!["M".to_string(), "T".to_string()], true);
    assert_eq!(abs.get_c_type(&root), "M_T");
    let rel = IdlScopedName(vec!["M".to_string(), "T".to_string()], false);
    assert_eq!(rel.get_c_type(&root), "T");
    assert_eq!(IdlTypeSpec::BooleanType.get_sub_op(&root), "DDS_OP_SUBTYPE_BOO");
    assert_eq!(IdlTypeSpec::U32Type.get_op(&root), "DDS_OP_TYPE_4BY");
    assert_eq!(IdlTypeSpec::F32Type.get_xml(&root), "<Float/>");
    assert_eq!(IdlTypeSpec::I64Type.get_key_size(&root), 0);
    assert!(!IdlTypeSpec::I64Type.contains_union(&root));
}
