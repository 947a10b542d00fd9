//! The serialization-descriptor compiler: for every field and struct the
//! opcode sequence that drives marshalling, the opcode-array length
//! needed to store it, and the key-descriptor table of a topic struct.
//! Scoped names are resolved through the symbol table; the explicitly
//! unsupported constructs (wide strings and characters, 128-bit floats,
//! containers of containers) fail fast rather than contributing a silent
//! zero that would corrupt every later offset.
use crate::alignment::{Alignment, AlignmentType};
use crate::ast::{
    resolve_path, IdlModule, IdlScopedName, IdlStructMember, IdlTypeDcl, IdlTypeDclKind,
    IdlTypeSpec,
};
use crate::basic_types::{
    key_flag, meta_op_line, spec_ctype, spec_op, spec_subop, spec_xml_tag, BType, BasicType,
};
use crate::model::{
    struct_members_view, type_spec_view, ModuleV, ScopedNameV, StructMemberV, TypeDclKindV,
    TypeSpecV,
};
use crate::text::{join_sep, spec_join_sep};
use crate::IdlError;
use vstd::prelude::*;
use vstd::string::StringExecFns;

verus! {

/// How deep scoped-name expansion may nest before descriptor generation
/// gives up; a chain of embedded structs deeper than this is refused as
/// an unsupported construct. The bound is a deliberate limit of this
/// compiler: the failure policy does not speak of recursion depth, and
/// an unbounded walk could not terminate on a cyclic reference chain.
/// Added depth never changes a computed count, it only lets deeper
/// chains succeed (`lemma_size_fuel_mono`).
pub const RESOLVE_DEPTH: u32 = 64;

/// The basic wire type of a type expression, if it has one: the numeric,
/// character, boolean and octet kinds, and strings.
pub open spec fn prim_btype(t: TypeSpecV) -> Option<BType> {
    match t {
        TypeSpecV::F32Type => Option::Some(BType::Float),
        TypeSpecV::F64Type => Option::Some(BType::Double),
        TypeSpecV::I16Type => Option::Some(BType::Short),
        TypeSpecV::I32Type => Option::Some(BType::Long),
        TypeSpecV::I64Type => Option::Some(BType::LongLong),
        TypeSpecV::U16Type => Option::Some(BType::UShort),
        TypeSpecV::U32Type => Option::Some(BType::ULong),
        TypeSpecV::U64Type => Option::Some(BType::ULongLong),
        TypeSpecV::CharType => Option::Some(BType::Char),
        TypeSpecV::BooleanType => Option::Some(BType::Boolean),
        TypeSpecV::OctetType => Option::Some(BType::Octet),
        TypeSpecV::StringType(_) => Option::Some(BType::Str),
        _ => Option::None,
    }
}

/// A type that contributes exactly two opcodes.
pub open spec fn is_two_op_type(t: TypeSpecV) -> bool {
    prim_btype(t) is Some
}

/// The number of opcode-array entries a field of this type needs.
///
/// Primitives and strings take two. An array takes five over a string
/// element, six plus the struct's member total over a struct element,
/// and one more than its element otherwise. A sequence takes two over a
/// string element, five plus the member total over a struct element, and
/// its element's count otherwise. A bare struct reference takes the sum
/// of the struct's members with no extra header. Wide strings, wide
/// characters, 128-bit floats and containers of containers are refused,
/// as is any scoped name that does not resolve to a struct; `fuel`
/// bounds how deep struct references may nest.
pub open spec fn spec_meta_op_size(t: TypeSpecV, root: ModuleV, fuel: nat) -> Result<int, IdlError>
    decreases fuel, t,
{
    match t {
        TypeSpecV::NoType => Result::Err(IdlError::InternalError),
        TypeSpecV::WideStringType(_) => Result::Err(IdlError::UnsupportedConstruct),
        TypeSpecV::F128Type => Result::Err(IdlError::UnsupportedConstruct),
        TypeSpecV::WideCharType => Result::Err(IdlError::UnsupportedConstruct),
        TypeSpecV::ArrayType(e, _dims) => match *e {
            TypeSpecV::StringType(_) => Result::Ok(5),
            TypeSpecV::ScopedName(n) => {
                if fuel == 0 {
                    Result::Err(IdlError::UnsupportedConstruct)
                } else {
                    match resolve_path(root, n.parts) {
                        Option::None => Result::Err(IdlError::UnresolvedScopedName),
                        Option::Some(TypeDclKindV::StructDcl(_id, ms, _f)) => match
                            spec_members_size(ms, root, (fuel - 1) as nat) {
                            Result::Ok(s) => Result::Ok(6 + s),
                            Result::Err(e) => Result::Err(e),
                        },
                        Option::Some(_) => Result::Err(IdlError::UnsupportedConstruct),
                    }
                }
            },
            TypeSpecV::ArrayType(_, _) => Result::Err(IdlError::UnsupportedConstruct),
            TypeSpecV::SequenceType(_, _) => Result::Err(IdlError::UnsupportedConstruct),
            TypeSpecV::NoType => Result::Err(IdlError::InternalError),
            _ => match spec_meta_op_size(*e, root, fuel) {
                Result::Ok(s) => Result::Ok(1 + s),
                Result::Err(e2) => Result::Err(e2),
            },
        },
        TypeSpecV::SequenceType(e, _bound) => match *e {
            TypeSpecV::StringType(_) => Result::Ok(2),
            TypeSpecV::ScopedName(n) => {
                if fuel == 0 {
                    Result::Err(IdlError::UnsupportedConstruct)
                } else {
                    match resolve_path(root, n.parts) {
                        Option::None => Result::Err(IdlError::UnresolvedScopedName),
                        Option::Some(TypeDclKindV::StructDcl(_id, ms, _f)) => match
                            spec_members_size(ms, root, (fuel - 1) as nat) {
                            Result::Ok(s) => Result::Ok(5 + s),
                            Result::Err(e) => Result::Err(e),
                        },
                        Option::Some(_) => Result::Err(IdlError::UnsupportedConstruct),
                    }
                }
            },
            TypeSpecV::ArrayType(_, _) => Result::Err(IdlError::UnsupportedConstruct),
            TypeSpecV::SequenceType(_, _) => Result::Err(IdlError::UnsupportedConstruct),
            TypeSpecV::NoType => Result::Err(IdlError::InternalError),
            _ => spec_meta_op_size(*e, root, fuel),
        },
        TypeSpecV::ScopedName(n) => {
            if fuel == 0 {
                Result::Err(IdlError::UnsupportedConstruct)
            } else {
                match resolve_path(root, n.parts) {
                    Option::None => Result::Err(IdlError::UnresolvedScopedName),
                    Option::Some(TypeDclKindV::StructDcl(_id, ms, _f)) => spec_members_size(
                        ms,
                        root,
                        (fuel - 1) as nat,
                    ),
                    Option::Some(_) => Result::Err(IdlError::UnsupportedConstruct),
                }
            }
        },
        _ => Result::Ok(2),
    }
}

/// The sum of the opcode counts of a struct's members, in declaration
/// order; the first member that fails decides the error.
pub open spec fn spec_members_size(ms: Seq<StructMemberV>, root: ModuleV, fuel: nat) -> Result<
    int,
    IdlError,
>
    decreases fuel, ms,
{
    if ms.len() == 0 {
        Result::Ok(0)
    } else if fuel == 0 {
        Result::Err(IdlError::UnsupportedConstruct)
    } else {
        match spec_meta_op_size(ms[0].type_spec, root, (fuel - 1) as nat) {
            Result::Err(e) => Result::Err(e),
            Result::Ok(s) => match spec_members_size(ms.drop_first(), root, fuel) {
                Result::Err(e) => Result::Err(e),
                Result::Ok(s2) => Result::Ok(s + s2),
            },
        }
    }
}

/// The errors the size computation can produce; in particular it never
/// fails with a message, so a message from the executable side always
/// means an opcode count beyond the machine's word.
pub open spec fn is_plain_err(e: IdlError) -> bool {
    e is InternalError || e is UnsupportedConstruct || e is UnresolvedScopedName
}

/// Every opcode count is nonnegative, and every size failure is one of
/// the plain error kinds.
pub proof fn lemma_meta_op_size_shape(t: TypeSpecV, root: ModuleV, fuel: nat)
    ensures
        spec_meta_op_size(t, root, fuel) matches Result::Ok(n) ==> n >= 0,
        spec_meta_op_size(t, root, fuel) matches Result::Err(e) ==> is_plain_err(e),
    decreases fuel, t,
{
    match t {
        TypeSpecV::ArrayType(e, _dims) => match *e {
            TypeSpecV::ScopedName(n) => {
                if fuel > 0 {
                    match resolve_path(root, n.parts) {
                        Option::Some(TypeDclKindV::StructDcl(_id, ms, _f)) => {
                            lemma_members_size_shape(ms, root, (fuel - 1) as nat);
                        },
                        _ => {},
                    }
                }
            },
            _ => {
                lemma_meta_op_size_shape(*e, root, fuel);
            },
        },
        TypeSpecV::SequenceType(e, _bound) => match *e {
            TypeSpecV::ScopedName(n) => {
                if fuel > 0 {
                    match resolve_path(root, n.parts) {
                        Option::Some(TypeDclKindV::StructDcl(_id, ms, _f)) => {
                            lemma_members_size_shape(ms, root, (fuel - 1) as nat);
                        },
                        _ => {},
                    }
                }
            },
            _ => {
                lemma_meta_op_size_shape(*e, root, fuel);
            },
        },
        TypeSpecV::ScopedName(n) => {
            if fuel > 0 {
                match resolve_path(root, n.parts) {
                    Option::Some(TypeDclKindV::StructDcl(_id, ms, _f)) => {
                        lemma_members_size_shape(ms, root, (fuel - 1) as nat);
                    },
                    _ => {},
                }
            }
        },
        _ => {},
    }
}

/// Every member total is nonnegative, and every failure is plain.
pub proof fn lemma_members_size_shape(ms: Seq<StructMemberV>, root: ModuleV, fuel: nat)
    ensures
        spec_members_size(ms, root, fuel) matches Result::Ok(n) ==> n >= 0,
        spec_members_size(ms, root, fuel) matches Result::Err(e) ==> is_plain_err(e),
    decreases fuel, ms,
{
    if ms.len() > 0 && fuel > 0 {
        lemma_meta_op_size_shape(ms[0].type_spec, root, (fuel - 1) as nat);
        lemma_members_size_shape(ms.drop_first(), root, fuel);
    }
}

/// What the executable size computation returns for a given modelled
/// count: the exact count when it fits the machine word, and the
/// overflow message when it does not.
pub open spec fn size_result_matches(s: Result<int, IdlError>, r: Result<usize, IdlError>) -> bool {
    match s {
        Result::Ok(n) => if n <= usize::MAX {
            r == Result::<usize, IdlError>::Ok(n as usize)
        } else {
            r matches Result::Err(IdlError::ErrorMesg(m)) && m@ == "meta-op size overflow"@
        },
        Result::Err(e) => r == Result::<usize, IdlError>::Err(e),
    }
}

/// The overflow failure.
fn size_overflow() -> (r: IdlError)
    ensures
        r matches IdlError::ErrorMesg(m) && m@ == "meta-op size overflow"@,
{
    IdlError::ErrorMesg(String::from_str("meta-op size overflow"))
}

impl IdlTypeSpec {
    /// The number of opcode-array entries a field of this type needs;
    /// see `spec_meta_op_size` for the counting rules.
    pub fn get_meta_op_size(&self, root: &IdlModule) -> (r: Result<usize, IdlError>)
        ensures
            size_result_matches(spec_meta_op_size(self@, root@, RESOLVE_DEPTH as nat), r),
    {
        self.meta_op_size_fueled(root, RESOLVE_DEPTH)
    }

    fn meta_op_size_fueled(&self, root: &IdlModule, fuel: u32) -> (r: Result<usize, IdlError>)
        ensures
            size_result_matches(spec_meta_op_size(self@, root@, fuel as nat), r),
        decreases fuel, self, 0int,
    {
        match self {
            IdlTypeSpec::NoType => Result::Err(IdlError::InternalError),
            IdlTypeSpec::WideStringType(_) => Result::Err(IdlError::UnsupportedConstruct),
            IdlTypeSpec::F128Type => Result::Err(IdlError::UnsupportedConstruct),
            IdlTypeSpec::WideCharType => Result::Err(IdlError::UnsupportedConstruct),
            IdlTypeSpec::ArrayType(e, _dims) => {
                let rr = match &**e {
                IdlTypeSpec::StringType(_) => Result::Ok(5),
                IdlTypeSpec::ScopedName(n) => {
                    if fuel == 0 {
                        Result::Err(IdlError::UnsupportedConstruct)
                    } else {
                        match root.get_type_decl(n) {
                            Option::None => Result::Err(IdlError::UnresolvedScopedName),
                            Option::Some(d) => match &d.0 {
                                IdlTypeDclKind::StructDcl(_id, members, _f) => {
                                    proof {
                                        assert(struct_members_view(members@).skip(0)
                                            =~= struct_members_view(members@));
                                    }
                                    match members_size_fueled(members, 0, root, fuel - 1) {
                                        Result::Err(e2) => Result::Err(e2),
                                        Result::Ok(s) => {
                                            proof {
                                                lemma_members_size_shape(
                                                    struct_members_view(members@),
                                                    root@,
                                                    (fuel - 1) as nat,
                                                );
                                            }
                                            if s > usize::MAX - 6 {
                                                Result::Err(size_overflow())
                                            } else {
                                                Result::Ok(6 + s)
                                            }
                                        },
                                    }
                                },
                                _ => Result::Err(IdlError::UnsupportedConstruct),
                            },
                        }
                    }
                },
                IdlTypeSpec::ArrayType(_, _) => Result::Err(IdlError::UnsupportedConstruct),
                IdlTypeSpec::SequenceType(_, _) => Result::Err(IdlError::UnsupportedConstruct),
                IdlTypeSpec::NoType => Result::Err(IdlError::InternalError),
                _ => match e.meta_op_size_fueled(root, fuel) {
                    Result::Err(e2) => Result::Err(e2),
                    Result::Ok(s) => {
                        if s > usize::MAX - 1 {
                            Result::Err(size_overflow())
                        } else {
                            Result::Ok(1 + s)
                        }
                    },
                },
                };
                proof {
                    reveal_with_fuel(spec_meta_op_size, 2);
                    assert(self@ matches TypeSpecV::ArrayType(bx, _ds) && *bx == (**e)@);
                    assert(size_result_matches(spec_meta_op_size(self@, root@, fuel as nat), rr));
                }
                rr
            },
            IdlTypeSpec::SequenceType(e, _bound) => {
                let rr = match &**e {
                IdlTypeSpec::StringType(_) => Result::Ok(2),
                IdlTypeSpec::ScopedName(n) => {
                    if fuel == 0 {
                        Result::Err(IdlError::UnsupportedConstruct)
                    } else {
                        match root.get_type_decl(n) {
                            Option::None => Result::Err(IdlError::UnresolvedScopedName),
                            Option::Some(d) => match &d.0 {
                                IdlTypeDclKind::StructDcl(_id, members, _f) => {
                                    proof {
                                        assert(struct_members_view(members@).skip(0)
                                            =~= struct_members_view(members@));
                                    }
                                    match members_size_fueled(members, 0, root, fuel - 1) {
                                        Result::Err(e2) => Result::Err(e2),
                                        Result::Ok(s) => {
                                            proof {
                                                lemma_members_size_shape(
                                                    struct_members_view(members@),
                                                    root@,
                                                    (fuel - 1) as nat,
                                                );
                                            }
                                            if s > usize::MAX - 5 {
                                                Result::Err(size_overflow())
                                            } else {
                                                Result::Ok(5 + s)
                                            }
                                        },
                                    }
                                },
                                _ => Result::Err(IdlError::UnsupportedConstruct),
                            },
                        }
                    }
                },
                IdlTypeSpec::ArrayType(_, _) => Result::Err(IdlError::UnsupportedConstruct),
                IdlTypeSpec::SequenceType(_, _) => Result::Err(IdlError::UnsupportedConstruct),
                IdlTypeSpec::NoType => Result::Err(IdlError::InternalError),
                _ => e.meta_op_size_fueled(root, fuel),
                };
                proof {
                    reveal_with_fuel(spec_meta_op_size, 2);
                    assert(self@ matches TypeSpecV::SequenceType(bx, _ob) && *bx == (**e)@);
                    assert(size_result_matches(spec_meta_op_size(self@, root@, fuel as nat), rr));
                }
                rr
            },
            IdlTypeSpec::ScopedName(n) => {
                if fuel == 0 {
                    Result::Err(IdlError::UnsupportedConstruct)
                } else {
                    match root.get_type_decl(n) {
                        Option::None => Result::Err(IdlError::UnresolvedScopedName),
                        Option::Some(d) => match &d.0 {
                            IdlTypeDclKind::StructDcl(_id, members, _f) => {
                                proof {
                                    assert(struct_members_view(members@).skip(0)
                                        =~= struct_members_view(members@));
                                }
                                members_size_fueled(members, 0, root, fuel - 1)
                            },
                            _ => Result::Err(IdlError::UnsupportedConstruct),
                        },
                    }
                }
            },
            _ => Result::Ok(2),
        }
    }
}

/// The sum of the opcode counts of the members from `i` on.
fn members_size_fueled(
    members: &Vec<IdlStructMember>,
    i: usize,
    root: &IdlModule,
    fuel: u32,
) -> (r: Result<usize, IdlError>)
    requires
        i <= members.len(),
    ensures
        size_result_matches(
            spec_members_size(struct_members_view(members@).skip(i as int), root@, fuel as nat),
            r,
        ),
    decreases fuel, members, members.len() - i,
{
    let ghost smv = struct_members_view(members@);
    if i == members.len() {
        proof {
            assert(smv.skip(i as int) =~= Seq::<StructMemberV>::empty());
        }
        Result::Ok(0)
    } else if fuel == 0 {
        Result::Err(IdlError::UnsupportedConstruct)
    } else {
        proof {
            assert(smv.skip(i as int)[0] == smv[i as int]);
            assert(smv.skip(i as int).drop_first() =~= smv.skip(i + 1));
            lemma_meta_op_size_shape(smv[i as int].type_spec, root@, (fuel - 1) as nat);
            lemma_members_size_shape(smv.skip(i + 1), root@, fuel as nat);
        }
        let head = members[i].type_spec.meta_op_size_fueled(root, fuel - 1);
        let rest = members_size_fueled(members, i + 1, root, fuel);
        match (head, rest) {
            (Result::Err(IdlError::ErrorMesg(m)), Result::Err(e2)) => Result::Err(e2),
            (Result::Err(IdlError::ErrorMesg(m)), Result::Ok(_)) => Result::Err(
                IdlError::ErrorMesg(m),
            ),
            (Result::Err(e1), _) => Result::Err(e1),
            (Result::Ok(s), Result::Err(e2)) => Result::Err(e2),
            (Result::Ok(s), Result::Ok(s2)) => {
                if s > usize::MAX - s2 {
                    Result::Err(size_overflow())
                } else {
                    Result::Ok(s + s2)
                }
            },
        }
    }
}

// ---------------------------------------------------------------------
// Opcode sequences.
// ---------------------------------------------------------------------

/// The wire-subtype constant of a container element; container and
/// scoped elements have none and render as not implemented.
pub open spec fn sub_op_of(e: TypeSpecV) -> Seq<char> {
    match prim_btype(e) {
        Option::Some(b) => spec_subop(b),
        Option::None => "NOT IMPLEMENTED"@,
    }
}

/// One address opcode line for a container field: the address tag, the
/// container's type tag, the element's wire-subtype constant, the
/// optional key flag, and the field's offset.
pub open spec fn container_op_line(
    tag: Seq<char>,
    subop: Seq<char>,
    is_key: bool,
    sname: Seq<char>,
    fname: Seq<char>,
) -> Seq<char> {
    "DDS_OP_ADR | "@ + tag + " | "@ + subop + key_flag(is_key) + " ,offsetof!("@ + sname + ","@
        + fname + ") as u32"@
}

/// The opcode lines of one field.
///
/// A primitive or string field takes one address line. A sequence or
/// array takes one address line carrying its element's subtype. A field
/// of an embedded struct expands to the embedded members' lines, the
/// field path extended by dotted concatenation, every member keyed by
/// the embedded struct's own topic flag. The explicitly unimplemented
/// kinds (wide strings, wide characters, 128-bit floats) are fatal, as
/// are an unresolved name and a non-struct behind a scoped name: a
/// descriptor with a placeholder entry would corrupt marshalling, so no
/// partial opcode list is ever produced.
pub open spec fn spec_meta_ops(
    t: TypeSpecV,
    fname: Seq<char>,
    sname: Seq<char>,
    is_key: bool,
    root: ModuleV,
    fuel: nat,
) -> Result<Seq<Seq<char>>, IdlError>
    decreases fuel, t,
{
    match t {
        TypeSpecV::NoType => Result::Err(IdlError::InternalError),
        TypeSpecV::WideStringType(_) => Result::Err(IdlError::UnsupportedConstruct),
        TypeSpecV::F128Type => Result::Err(IdlError::UnsupportedConstruct),
        TypeSpecV::WideCharType => Result::Err(IdlError::UnsupportedConstruct),
        TypeSpecV::ArrayType(e, _dims) => if *e is NoType {
            Result::Err(IdlError::InternalError)
        } else {
            Result::Ok(
                seq![
                    container_op_line("DDS_OP_TYPE_ARR"@, sub_op_of(*e), is_key, sname, fname)
                ],
            )
        },
        TypeSpecV::SequenceType(e, _bound) => if *e is NoType {
            Result::Err(IdlError::InternalError)
        } else {
            Result::Ok(
                seq![
                    container_op_line("DDS_OP_TYPE_SEQ"@, sub_op_of(*e), is_key, sname, fname)
                ],
            )
        },
        TypeSpecV::ScopedName(n) => {
            if fuel == 0 {
                Result::Err(IdlError::UnsupportedConstruct)
            } else {
                match resolve_path(root, n.parts) {
                    Option::None => Result::Err(IdlError::UnresolvedScopedName),
                    Option::Some(TypeDclKindV::StructDcl(_id, ms, s_flag)) => spec_members_meta_ops(
                        ms,
                        fname,
                        sname,
                        s_flag,
                        root,
                        (fuel - 1) as nat,
                    ),
                    Option::Some(_) => Result::Err(IdlError::UnsupportedConstruct),
                }
            }
        },
        _ => match prim_btype(t) {
            Option::Some(b) => Result::Ok(seq![meta_op_line(spec_op(b), is_key, sname, fname)]),
            Option::None => Result::Err(IdlError::InternalError),
        },
    }
}

/// The opcode lines of an embedded struct's members, in declaration
/// order, each under the dotted field path.
pub open spec fn spec_members_meta_ops(
    ms: Seq<StructMemberV>,
    base: Seq<char>,
    sname: Seq<char>,
    flag: bool,
    root: ModuleV,
    fuel: nat,
) -> Result<Seq<Seq<char>>, IdlError>
    decreases fuel, ms,
{
    if ms.len() == 0 {
        Result::Ok(Seq::empty())
    } else if fuel == 0 {
        Result::Err(IdlError::UnsupportedConstruct)
    } else {
        match spec_meta_ops(
            ms[0].type_spec,
            base + "."@ + ms[0].id,
            sname,
            flag,
            root,
            (fuel - 1) as nat,
        ) {
            Result::Err(e) => Result::Err(e),
            Result::Ok(v) => match spec_members_meta_ops(
                ms.drop_first(),
                base,
                sname,
                flag,
                root,
                fuel,
            ) {
                Result::Err(e) => Result::Err(e),
                Result::Ok(v2) => Result::Ok(v + v2),
            },
        }
    }
}

/// What the executable opcode computation returns for a given modelled
/// sequence of lines.
pub open spec fn ops_result_matches(
    s: Result<Seq<Seq<char>>, IdlError>,
    r: Result<Vec<String>, IdlError>,
) -> bool {
    match s {
        Result::Err(e) => r == Result::<Vec<String>, IdlError>::Err(e),
        Result::Ok(v) => r matches Result::Ok(w) && w.deep_view() == v,
    }
}

/// A one-element vector holding this line.
fn singleton_line(line: String) -> (r: Vec<String>)
    ensures
        r.deep_view() =~= seq![line@],
{
    let mut r: Vec<String> = Vec::new();
    r.push(line);
    r
}

/// The one-line opcode vector of a basic-type field.
fn prim_line_ops(b: BasicType, name: &str, struct_name: &str, is_key: bool, root: &IdlModule) -> (r:
    Vec<String>)
    requires
        b.wf(),
    ensures
        r.deep_view() == seq![meta_op_line(spec_op(b.btype()), is_key, struct_name@, name@)],
{
    let w = b.get_meta_op(name, struct_name, is_key, root);
    proof {
        assert(w.deep_view() =~= seq![meta_op_line(b.op_spec(), is_key, struct_name@, name@)]);
    }
    w
}

/// Append a container opcode line to a string.
fn push_container_op_line(out: &mut String, tag: &str, subop: &str, is_key: bool, sname: &str, fname: &str)
    ensures
        final(out)@ == old(out)@ + container_op_line(tag@, subop@, is_key, sname@, fname@),
{
    out.append("DDS_OP_ADR | ");
    out.append(tag);
    out.append(" | ");
    out.append(subop);
    if is_key {
        out.append(" | DDS_OP_FLAG_KEY");
    }
    out.append(" ,offsetof!(");
    out.append(sname);
    out.append(",");
    out.append(fname);
    out.append(") as u32");
}

impl IdlTypeSpec {
    /// The wire-subtype constant of this type when it is a container
    /// element.
    pub fn get_sub_op(&self, root: &IdlModule) -> (r: String)
        requires
            !(self@ is NoType),
        ensures
            r@ == sub_op_of(self@),
    {
        match self {
            IdlTypeSpec::F32Type => BasicType::new_float().get_sub_op(root),
            IdlTypeSpec::F64Type => BasicType::new_double().get_sub_op(root),
            IdlTypeSpec::I16Type => BasicType::new_short().get_sub_op(root),
            IdlTypeSpec::I32Type => BasicType::new_long().get_sub_op(root),
            IdlTypeSpec::I64Type => BasicType::new_longlong().get_sub_op(root),
            IdlTypeSpec::U16Type => BasicType::new_ushort().get_sub_op(root),
            IdlTypeSpec::U32Type => BasicType::new_ulong().get_sub_op(root),
            IdlTypeSpec::U64Type => BasicType::new_ulonglong().get_sub_op(root),
            IdlTypeSpec::CharType => BasicType::new_char().get_sub_op(root),
            IdlTypeSpec::BooleanType => BasicType::new_boolean().get_sub_op(root),
            IdlTypeSpec::OctetType => BasicType::new_octet().get_sub_op(root),
            IdlTypeSpec::StringType(_) => BasicType::new_string().get_sub_op(root),
            _ => String::from_str("NOT IMPLEMENTED"),
        }
    }

    /// The wire-type constant of this type, or a placeholder where it
    /// has none.
    pub fn get_op(&self, root: &IdlModule) -> (r: String)
        requires
            !(self@ is NoType),
        ensures
            r@ == (match prim_btype(self@) {
                Option::Some(b) => spec_op(b),
                Option::None => "NOT IMPLEMENTED"@,
            }),
    {
        match self {
            IdlTypeSpec::F32Type => BasicType::new_float().get_op(root),
            IdlTypeSpec::F64Type => BasicType::new_double().get_op(root),
            IdlTypeSpec::I16Type => BasicType::new_short().get_op(root),
            IdlTypeSpec::I32Type => BasicType::new_long().get_op(root),
            IdlTypeSpec::I64Type => BasicType::new_longlong().get_op(root),
            IdlTypeSpec::U16Type => BasicType::new_ushort().get_op(root),
            IdlTypeSpec::U32Type => BasicType::new_ulong().get_op(root),
            IdlTypeSpec::U64Type => BasicType::new_ulonglong().get_op(root),
            IdlTypeSpec::CharType => BasicType::new_char().get_op(root),
            IdlTypeSpec::BooleanType => BasicType::new_boolean().get_op(root),
            IdlTypeSpec::OctetType => BasicType::new_octet().get_op(root),
            IdlTypeSpec::StringType(_) => BasicType::new_string().get_op(root),
            _ => String::from_str("NOT IMPLEMENTED"),
        }
    }

    /// The tag of this type in the legacy metadata format, or a
    /// placeholder where it has none.
    pub fn get_xml(&self, root: &IdlModule) -> (r: String)
        requires
            !(self@ is NoType),
        ensures
            r@ == (match prim_btype(self@) {
                Option::Some(b) => "<"@ + spec_xml_tag(b) + "/>"@,
                Option::None => "NOT IMPLEMENTED"@,
            }),
    {
        match self {
            IdlTypeSpec::F32Type => BasicType::new_float().get_xml(root),
            IdlTypeSpec::F64Type => BasicType::new_double().get_xml(root),
            IdlTypeSpec::I16Type => BasicType::new_short().get_xml(root),
            IdlTypeSpec::I32Type => BasicType::new_long().get_xml(root),
            IdlTypeSpec::I64Type => BasicType::new_longlong().get_xml(root),
            IdlTypeSpec::U16Type => BasicType::new_ushort().get_xml(root),
            IdlTypeSpec::U32Type => BasicType::new_ulong().get_xml(root),
            IdlTypeSpec::U64Type => BasicType::new_ulonglong().get_xml(root),
            IdlTypeSpec::CharType => BasicType::new_char().get_xml(root),
            IdlTypeSpec::BooleanType => BasicType::new_boolean().get_xml(root),
            IdlTypeSpec::OctetType => BasicType::new_octet().get_xml(root),
            IdlTypeSpec::StringType(_) => BasicType::new_string().get_xml(root),
            _ => String::from_str("NOT IMPLEMENTED"),
        }
    }

    /// A type expression never contributes to key sizing directly.
    pub fn get_key_size(&self, _root: &IdlModule) -> (r: i32)
        ensures
            r == 0,
    {
        0
    }

    /// The conservative alignment used for any type expression.
    pub fn get_alignment(&self, _root: &IdlModule) -> (r: Alignment)
        ensures
            r.wf(),
            r.alignment_type() == AlignmentType::Ptr,
    {
        Alignment::new(AlignmentType::Ptr)
    }

    /// A type expression is never taken for a union here.
    pub fn contains_union(&self, _root: &IdlModule) -> (r: bool)
        ensures
            !r,
    {
        false
    }

    /// The opcode lines of a field of this type; see `spec_meta_ops`.
    pub fn get_meta_op(
        &self,
        name: &str,
        struct_name: &str,
        is_key_field: bool,
        root: &IdlModule,
    ) -> (r: Result<Vec<String>, IdlError>)
        ensures
            ops_result_matches(
                spec_meta_ops(
                    self@,
                    name@,
                    struct_name@,
                    is_key_field,
                    root@,
                    RESOLVE_DEPTH as nat,
                ),
                r,
            ),
    {
        self.meta_op_fueled(name, struct_name, is_key_field, root, RESOLVE_DEPTH)
    }

    fn meta_op_fueled(
        &self,
        name: &str,
        struct_name: &str,
        is_key: bool,
        root: &IdlModule,
        fuel: u32,
    ) -> (r: Result<Vec<String>, IdlError>)
        ensures
            ops_result_matches(
                spec_meta_ops(self@, name@, struct_name@, is_key, root@, fuel as nat),
                r,
            ),
        decreases fuel, self, 0int,
    {
        match self {
            IdlTypeSpec::NoType => Result::Err(IdlError::InternalError),
            IdlTypeSpec::WideStringType(_) => Result::Err(IdlError::UnsupportedConstruct),
            IdlTypeSpec::F128Type => Result::Err(IdlError::UnsupportedConstruct),
            IdlTypeSpec::WideCharType => Result::Err(IdlError::UnsupportedConstruct),
            IdlTypeSpec::ArrayType(e, _dims) => {
                let rr = if matches!(&**e, IdlTypeSpec::NoType) {
                    Result::Err(IdlError::InternalError)
                } else {
                    let subop = e.get_sub_op(root);
                    let mut line = String::new();
                    push_container_op_line(
                        &mut line,
                        "DDS_OP_TYPE_ARR",
                        subop.as_str(),
                        is_key,
                        struct_name,
                        name,
                    );
                    Result::Ok(singleton_line(line))
                };
                proof {
                    assert(self@ matches TypeSpecV::ArrayType(bx, _ds) && *bx == (**e)@);
                }
                rr
            },
            IdlTypeSpec::SequenceType(e, _bound) => {
                let rr = if matches!(&**e, IdlTypeSpec::NoType) {
                    Result::Err(IdlError::InternalError)
                } else {
                    let subop = e.get_sub_op(root);
                    let mut line = String::new();
                    push_container_op_line(
                        &mut line,
                        "DDS_OP_TYPE_SEQ",
                        subop.as_str(),
                        is_key,
                        struct_name,
                        name,
                    );
                    Result::Ok(singleton_line(line))
                };
                proof {
                    assert(self@ matches TypeSpecV::SequenceType(bx, _ob) && *bx == (**e)@);
                }
                rr
            },
            IdlTypeSpec::ScopedName(n) => {
                if fuel == 0 {
                    Result::Err(IdlError::UnsupportedConstruct)
                } else {
                    match root.get_type_decl(n) {
                        Option::None => Result::Err(IdlError::UnresolvedScopedName),
                        Option::Some(d) => match &d.0 {
                            IdlTypeDclKind::StructDcl(_id, members, s_flag) => {
                                proof {
                                    assert(struct_members_view(members@).skip(0)
                                        =~= struct_members_view(members@));
                                }
                                members_meta_ops_fueled(
                                    members,
                                    0,
                                    name,
                                    struct_name,
                                    *s_flag,
                                    root,
                                    fuel - 1,
                                )
                            },
                            _ => Result::Err(IdlError::UnsupportedConstruct),
                        },
                    }
                }
            },
            IdlTypeSpec::F32Type => Result::Ok(
                prim_line_ops(BasicType::new_float(), name, struct_name, is_key, root),
            ),
            IdlTypeSpec::F64Type => Result::Ok(
                prim_line_ops(BasicType::new_double(), name, struct_name, is_key, root),
            ),
            IdlTypeSpec::I16Type => Result::Ok(
                prim_line_ops(BasicType::new_short(), name, struct_name, is_key, root),
            ),
            IdlTypeSpec::I32Type => Result::Ok(
                prim_line_ops(BasicType::new_long(), name, struct_name, is_key, root),
            ),
            IdlTypeSpec::I64Type => Result::Ok(
                prim_line_ops(BasicType::new_longlong(), name, struct_name, is_key, root),
            ),
            IdlTypeSpec::U16Type => Result::Ok(
                prim_line_ops(BasicType::new_ushort(), name, struct_name, is_key, root),
            ),
            IdlTypeSpec::U32Type => Result::Ok(
                prim_line_ops(BasicType::new_ulong(), name, struct_name, is_key, root),
            ),
            IdlTypeSpec::U64Type => Result::Ok(
                prim_line_ops(BasicType::new_ulonglong(), name, struct_name, is_key, root),
            ),
            IdlTypeSpec::CharType => Result::Ok(
                prim_line_ops(BasicType::new_char(), name, struct_name, is_key, root),
            ),
            IdlTypeSpec::BooleanType => Result::Ok(
                prim_line_ops(BasicType::new_boolean(), name, struct_name, is_key, root),
            ),
            IdlTypeSpec::OctetType => Result::Ok(
                prim_line_ops(BasicType::new_octet(), name, struct_name, is_key, root),
            ),
            IdlTypeSpec::StringType(_) => Result::Ok(
                prim_line_ops(BasicType::new_string(), name, struct_name, is_key, root),
            ),
        }
    }
}

/// The opcode lines of an embedded struct's members from `i` on, each
/// under the dotted field path below `base`.
fn members_meta_ops_fueled(
    members: &Vec<IdlStructMember>,
    i: usize,
    base: &str,
    sname: &str,
    flag: bool,
    root: &IdlModule,
    fuel: u32,
) -> (r: Result<Vec<String>, IdlError>)
    requires
        i <= members.len(),
    ensures
        ops_result_matches(
            spec_members_meta_ops(
                struct_members_view(members@).skip(i as int),
                base@,
                sname@,
                flag,
                root@,
                fuel as nat,
            ),
            r,
        ),
    decreases fuel, members, members.len() - i,
{
    let ghost smv = struct_members_view(members@);
    if i == members.len() {
        proof {
            assert(smv.skip(i as int) =~= Seq::<StructMemberV>::empty());
        }
        let r: Vec<String> = Vec::new();
        proof {
            assert(r.deep_view() =~= Seq::<Seq<char>>::empty());
        }
        Result::Ok(r)
    } else if fuel == 0 {
        Result::Err(IdlError::UnsupportedConstruct)
    } else {
        proof {
            assert(smv.skip(i as int)[0] == smv[i as int]);
            assert(smv.skip(i as int).drop_first() =~= smv.skip(i + 1));
        }
        let mut field = base.to_owned();
        field.append(".");
        field.append(members[i].id.as_str());
        match members[i].type_spec.meta_op_fueled(field.as_str(), sname, flag, root, fuel - 1) {
            Result::Err(e) => Result::Err(e),
            Result::Ok(mut v) => match members_meta_ops_fueled(
                members,
                i + 1,
                base,
                sname,
                flag,
                root,
                fuel,
            ) {
                Result::Err(e) => Result::Err(e),
                Result::Ok(mut v2) => {
                    let ghost v_view = v.deep_view();
                    let ghost v2_view = v2.deep_view();
                    v.append(&mut v2);
                    proof {
                        assert(v.deep_view() =~= v_view + v2_view);
                    }
                    Result::Ok(v)
                },
            },
        }
    }
}


// ---------------------------------------------------------------------
// Struct-level descriptors: the flat opcode list, the opcode-array
// length, and the key-descriptor table. All three walk the members in
// declaration order with the same size formula, so the key offsets index
// the same opcode array the list describes.
// ---------------------------------------------------------------------

/// The sum of the members' opcode counts from member `i` on, each
/// computed with the full resolution depth, as the struct-level
/// functions compute it.
pub open spec fn spec_top_members_size(ms: Seq<StructMemberV>, i: int, root: ModuleV) -> Result<
    int,
    IdlError,
>
    decreases ms.len() - i,
{
    if i < 0 || i >= ms.len() {
        Result::Ok(0)
    } else {
        match spec_meta_op_size(ms[i].type_spec, root, RESOLVE_DEPTH as nat) {
            Result::Err(e) => Result::Err(e),
            Result::Ok(s) => match spec_top_members_size(ms, i + 1, root) {
                Result::Err(e) => Result::Err(e),
                Result::Ok(s2) => Result::Ok(s + s2),
            },
        }
    }
}

/// Every member total is nonnegative, and every failure is plain.
pub proof fn lemma_top_members_size_shape(ms: Seq<StructMemberV>, i: int, root: ModuleV)
    ensures
        spec_top_members_size(ms, i, root) matches Result::Ok(n) ==> n >= 0,
        spec_top_members_size(ms, i, root) matches Result::Err(e) ==> is_plain_err(e),
    decreases ms.len() - i,
{
    if 0 <= i < ms.len() {
        lemma_meta_op_size_shape(ms[i].type_spec, root, RESOLVE_DEPTH as nat);
        lemma_top_members_size_shape(ms, i + 1, root);
    }
}

/// The opcode-array length a struct declaration needs: the sum of its
/// members' counts plus one terminator. Only structs have descriptors.
pub open spec fn spec_total_op_count(k: TypeDclKindV, root: ModuleV) -> Result<int, IdlError> {
    match k {
        TypeDclKindV::StructDcl(_id, ms, _f) => match spec_top_members_size(ms, 0, root) {
            Result::Err(e) => Result::Err(e),
            Result::Ok(n) => Result::Ok(n + 1),
        },
        _ => Result::Err(IdlError::UnsupportedConstruct),
    }
}

/// The opcode lines of the members from `i` on, each under its own
/// field name and key flag.
pub open spec fn spec_top_members_ops(
    ms: Seq<StructMemberV>,
    i: int,
    sname: Seq<char>,
    root: ModuleV,
) -> Result<Seq<Seq<char>>, IdlError>
    decreases ms.len() - i,
{
    if i < 0 || i >= ms.len() {
        Result::Ok(Seq::empty())
    } else {
        match spec_meta_ops(
            ms[i].type_spec,
            ms[i].id,
            sname,
            ms[i].is_key,
            root,
            RESOLVE_DEPTH as nat,
        ) {
            Result::Err(e) => Result::Err(e),
            Result::Ok(v) => match spec_top_members_ops(ms, i + 1, sname, root) {
                Result::Err(e) => Result::Err(e),
                Result::Ok(v2) => Result::Ok(v + v2),
            },
        }
    }
}

/// The whole opcode list of a struct declaration: its members' lines in
/// declaration order, then one terminator opcode.
pub open spec fn spec_struct_meta_ops(k: TypeDclKindV, root: ModuleV) -> Result<
    Seq<Seq<char>>,
    IdlError,
> {
    match k {
        TypeDclKindV::StructDcl(id, ms, _f) => match spec_top_members_ops(ms, 0, id, root) {
            Result::Err(e) => Result::Err(e),
            Result::Ok(v) => Result::Ok(v.push("DDS_OP_RTS"@)),
        },
        _ => Result::Err(IdlError::UnsupportedConstruct),
    }
}

/// The key descriptors of the members from `i` on, with `offset` opcode
/// entries accumulated before member `i`: every key member contributes
/// its name and the opcode count that precedes it. The offset indexes
/// the opcode array, not the C struct.
pub open spec fn spec_key_table_from(
    ms: Seq<StructMemberV>,
    i: int,
    offset: int,
    root: ModuleV,
) -> Result<Seq<(Seq<char>, int)>, IdlError>
    decreases ms.len() - i,
{
    if i < 0 || i >= ms.len() {
        Result::Ok(Seq::empty())
    } else {
        match spec_meta_op_size(ms[i].type_spec, root, RESOLVE_DEPTH as nat) {
            Result::Err(e) => Result::Err(e),
            Result::Ok(s) => match spec_key_table_from(ms, i + 1, offset + s, root) {
                Result::Err(e) => Result::Err(e),
                Result::Ok(rest) => Result::Ok(
                    if ms[i].is_key {
                        seq![(ms[i].id, offset)] + rest
                    } else {
                        rest
                    },
                ),
            },
        }
    }
}

/// The executable key table holds the same names and offsets as the
/// modelled one.
pub open spec fn key_table_matches(v: Seq<(String, usize)>, t: Seq<(Seq<char>, int)>) -> bool {
    v.len() == t.len() && forall|k: int|
        0 <= k < v.len() ==> (#[trigger] v[k]).0@ == t[k].0 && v[k].1 as int == t[k].1
}

/// The sum of the members' opcode counts from member `i` on.
fn top_members_size(members: &Vec<IdlStructMember>, i: usize, root: &IdlModule) -> (r: Result<
    usize,
    IdlError,
>)
    requires
        i <= members.len(),
    ensures
        size_result_matches(
            spec_top_members_size(struct_members_view(members@), i as int, root@),
            r,
        ),
    decreases members.len() - i,
{
    let ghost smv = struct_members_view(members@);
    if i == members.len() {
        Result::Ok(0)
    } else {
        proof {
            lemma_meta_op_size_shape(smv[i as int].type_spec, root@, RESOLVE_DEPTH as nat);
            lemma_top_members_size_shape(smv, i + 1, root@);
        }
        let head = members[i].type_spec.get_meta_op_size(root);
        let rest = top_members_size(members, i + 1, root);
        match (head, rest) {
            (Result::Err(IdlError::ErrorMesg(m)), Result::Err(e2)) => Result::Err(e2),
            (Result::Err(IdlError::ErrorMesg(m)), Result::Ok(_)) => Result::Err(
                IdlError::ErrorMesg(m),
            ),
            (Result::Err(e1), _) => Result::Err(e1),
            (Result::Ok(s), Result::Err(e2)) => Result::Err(e2),
            (Result::Ok(s), Result::Ok(s2)) => {
                if s > usize::MAX - s2 {
                    Result::Err(size_overflow())
                } else {
                    Result::Ok(s + s2)
                }
            },
        }
    }
}

/// The opcode lines of the members from `i` on.
fn top_members_ops(
    members: &Vec<IdlStructMember>,
    i: usize,
    sname: &str,
    root: &IdlModule,
) -> (r: Result<Vec<String>, IdlError>)
    requires
        i <= members.len(),
    ensures
        ops_result_matches(
            spec_top_members_ops(struct_members_view(members@), i as int, sname@, root@),
            r,
        ),
    decreases members.len() - i,
{
    let ghost smv = struct_members_view(members@);
    if i == members.len() {
        let r: Vec<String> = Vec::new();
        proof {
            assert(r.deep_view() =~= Seq::<Seq<char>>::empty());
        }
        Result::Ok(r)
    } else {
        match members[i].type_spec.get_meta_op(
            members[i].id.as_str(),
            sname,
            members[i].is_key,
            root,
        ) {
            Result::Err(e) => Result::Err(e),
            Result::Ok(mut v) => match top_members_ops(members, i + 1, sname, root) {
                Result::Err(e) => Result::Err(e),
                Result::Ok(mut v2) => {
                    let ghost v_view = v.deep_view();
                    let ghost v2_view = v2.deep_view();
                    v.append(&mut v2);
                    proof {
                        assert(v.deep_view() =~= v_view + v2_view);
                    }
                    Result::Ok(v)
                },
            },
        }
    }
}

/// The key descriptors of the members from `i` on; the caller
/// establishes that every remaining member's count exists and that the
/// accumulated offsets stay within the machine word.
fn key_table_rec(
    members: &Vec<IdlStructMember>,
    i: usize,
    offset: usize,
    root: &IdlModule,
) -> (r: Vec<(String, usize)>)
    requires
        i <= members.len(),
        spec_top_members_size(struct_members_view(members@), i as int, root@) matches Result::Ok(n)
            && offset + n <= usize::MAX,
    ensures
        spec_key_table_from(struct_members_view(members@), i as int, offset as int, root@)
            matches Result::Ok(t) && key_table_matches(r@, t),
    decreases members.len() - i,
{
    let ghost smv = struct_members_view(members@);
    if i == members.len() {
        let r: Vec<(String, usize)> = Vec::new();
        r
    } else {
        proof {
            lemma_meta_op_size_shape(smv[i as int].type_spec, root@, RESOLVE_DEPTH as nat);
            lemma_top_members_size_shape(smv, i + 1, root@);
        }
        let s = match members[i].type_spec.get_meta_op_size(root) {
            Result::Ok(s) => s,
            Result::Err(_) => vstd::pervasive::unreached(),
        };
        let mut rest = key_table_rec(members, i + 1, offset + s, root);
        if members[i].is_key {
            let mut v: Vec<(String, usize)> = Vec::new();
            v.push((members[i].id.clone(), offset));
            let ghost rest_view = rest@;
            v.append(&mut rest);
            proof {
                assert(v@ =~= seq![(members@[i as int].id, offset)] + rest_view);
            }
            v
        } else {
            rest
        }
    }
}

impl IdlTypeDcl {
    /// The whole opcode list of this struct declaration: one or more
    /// address lines per member, in declaration order, then one
    /// terminator opcode. Declarations other than structs have no
    /// descriptor.
    pub fn get_meta_op(&self, root: &IdlModule) -> (r: Result<Vec<String>, IdlError>)
        ensures
            ops_result_matches(spec_struct_meta_ops(self@, root@), r),
    {
        match &self.0 {
            IdlTypeDclKind::StructDcl(id, members, _f) => {
                match top_members_ops(members, 0, id.as_str(), root) {
                    Result::Err(e) => Result::Err(e),
                    Result::Ok(mut v) => {
                        let ghost v_view = v.deep_view();
                        v.push(String::from_str("DDS_OP_RTS"));
                        proof {
                            assert(v.deep_view() =~= v_view.push("DDS_OP_RTS"@));
                        }
                        Result::Ok(v)
                    },
                }
            },
            _ => Result::Err(IdlError::UnsupportedConstruct),
        }
    }

    /// The opcode-array length this struct's descriptor needs: the sum
    /// of the members' opcode counts plus one terminator.
    pub fn total_op_count(&self, root: &IdlModule) -> (r: Result<usize, IdlError>)
        ensures
            size_result_matches(spec_total_op_count(self@, root@), r),
    {
        match &self.0 {
            IdlTypeDclKind::StructDcl(_id, members, _f) => {
                proof {
                    lemma_top_members_size_shape(struct_members_view(members@), 0, root@);
                }
                match top_members_size(members, 0, root) {
                    Result::Err(e) => Result::Err(e),
                    Result::Ok(s) => {
                        if s == usize::MAX {
                            Result::Err(size_overflow())
                        } else {
                            Result::Ok(s + 1)
                        }
                    },
                }
            },
            _ => Result::Err(IdlError::UnsupportedConstruct),
        }
    }

    /// The key-descriptor table of this struct: for every member marked
    /// as a key, its name and the number of opcode entries contributed
    /// by the members before it, in declaration order. The offsets index
    /// the opcode array built by `get_meta_op` from the same size
    /// formula, so the two cannot fall out of step.
    pub fn key_descriptor_table(&self, root: &IdlModule) -> (r: Result<
        Vec<(String, usize)>,
        IdlError,
    >)
        ensures
            ({
                match self@ {
                    TypeDclKindV::StructDcl(_id, ms, _f) => {
                        &&& (spec_top_members_size(ms, 0, root@) matches Result::Err(e) ==> r
                            == Result::<Vec<(String, usize)>, IdlError>::Err(e))
                        &&& ((spec_top_members_size(ms, 0, root@) matches Result::Ok(n) && n
                            > usize::MAX) ==> (r matches Result::Err(IdlError::ErrorMesg(m)) && m@
                            == "meta-op size overflow"@))
                        &&& ((spec_top_members_size(ms, 0, root@) matches Result::Ok(n) && n
                            <= usize::MAX) ==> (spec_key_table_from(ms, 0, 0, root@)
                            matches Result::Ok(t) && (r matches Result::Ok(v) && key_table_matches(
                            v@,
                            t,
                        ))))
                    },
                    _ => r == Result::<Vec<(String, usize)>, IdlError>::Err(
                        IdlError::UnsupportedConstruct,
                    ),
                }
            }),
    {
        match &self.0 {
            IdlTypeDclKind::StructDcl(_id, members, _f) => {
                match top_members_size(members, 0, root) {
                    Result::Err(e) => Result::Err(e),
                    Result::Ok(_total) => Result::Ok(key_table_rec(members, 0, 0, root)),
                }
            },
            _ => Result::Err(IdlError::UnsupportedConstruct),
        }
    }
}

/// A computed opcode count is stable under added resolution depth: fuel
/// only cuts deep walks short, it never changes a count that exists.
pub proof fn lemma_size_fuel_mono(t: TypeSpecV, root: ModuleV, f1: nat, f2: nat)
    requires
        f1 <= f2,
        spec_meta_op_size(t, root, f1) is Ok,
    ensures
        spec_meta_op_size(t, root, f2) == spec_meta_op_size(t, root, f1),
    decreases f1, t,
{
    match t {
        TypeSpecV::ArrayType(e, _dims) => match *e {
            TypeSpecV::ScopedName(n) => {
                match resolve_path(root, n.parts) {
                    Option::Some(TypeDclKindV::StructDcl(_id, ms, _f)) => {
                        lemma_members_size_fuel_mono(ms, root, (f1 - 1) as nat, (f2 - 1) as nat);
                    },
                    _ => {},
                }
            },
            TypeSpecV::ArrayType(_, _) => {},
            TypeSpecV::SequenceType(_, _) => {},
            TypeSpecV::NoType => {},
            TypeSpecV::StringType(_) => {},
            _ => {
                lemma_size_fuel_mono(*e, root, f1, f2);
            },
        },
        TypeSpecV::SequenceType(e, _bound) => match *e {
            TypeSpecV::ScopedName(n) => {
                match resolve_path(root, n.parts) {
                    Option::Some(TypeDclKindV::StructDcl(_id, ms, _f)) => {
                        lemma_members_size_fuel_mono(ms, root, (f1 - 1) as nat, (f2 - 1) as nat);
                    },
                    _ => {},
                }
            },
            TypeSpecV::ArrayType(_, _) => {},
            TypeSpecV::SequenceType(_, _) => {},
            TypeSpecV::NoType => {},
            TypeSpecV::StringType(_) => {},
            _ => {
                lemma_size_fuel_mono(*e, root, f1, f2);
            },
        },
        TypeSpecV::ScopedName(n) => {
            match resolve_path(root, n.parts) {
                Option::Some(TypeDclKindV::StructDcl(_id, ms, _f)) => {
                    lemma_members_size_fuel_mono(ms, root, (f1 - 1) as nat, (f2 - 1) as nat);
                },
                _ => {},
            }
        },
        _ => {},
    }
}

/// A computed member total is stable under added resolution depth.
pub proof fn lemma_members_size_fuel_mono(ms: Seq<StructMemberV>, root: ModuleV, f1: nat, f2: nat)
    requires
        f1 <= f2,
        spec_members_size(ms, root, f1) is Ok,
    ensures
        spec_members_size(ms, root, f2) == spec_members_size(ms, root, f1),
    decreases f1, ms,
{
    if ms.len() > 0 {
        lemma_size_fuel_mono(ms[0].type_spec, root, (f1 - 1) as nat, (f2 - 1) as nat);
        lemma_members_size_fuel_mono(ms.drop_first(), root, f1, f2);
    }
}

/// Dropping the first member shifts the summation index by one.
proof fn lemma_top_members_shift(ms: Seq<StructMemberV>, i: int, root: ModuleV)
    requires
        1 <= i,
        ms.len() >= 1,
    ensures
        spec_top_members_size(ms, i, root) == spec_top_members_size(ms.drop_first(), i - 1, root),
    decreases ms.len() - i,
{
    if i < ms.len() {
        assert(ms.drop_first()[i - 1] == ms[i]);
        lemma_top_members_shift(ms, i + 1, root);
    }
}

/// A member total computed inside an expansion equals the sum of the
/// members' own counts, each taken at the full resolution depth.
proof fn lemma_members_size_lift(ms: Seq<StructMemberV>, root: ModuleV, fuel: nat)
    requires
        fuel <= RESOLVE_DEPTH as nat,
        spec_members_size(ms, root, fuel) is Ok,
    ensures
        spec_top_members_size(ms, 0, root) == spec_members_size(ms, root, fuel),
    decreases ms.len(),
{
    if ms.len() > 0 {
        lemma_size_fuel_mono(ms[0].type_spec, root, (fuel - 1) as nat, RESOLVE_DEPTH as nat);
        lemma_members_size_lift(ms.drop_first(), root, fuel);
        lemma_top_members_shift(ms, 1, root);
    }
}

/// A bare struct reference that resolves contributes exactly the sum of
/// the referenced struct's members' own counts — embedding a struct by
/// scoped name adds no boxing opcode, unlike an array or sequence of
/// structs.
pub proof fn lemma_scoped_size_is_member_sum(
    n: ScopedNameV,
    id: Seq<char>,
    ms: Seq<StructMemberV>,
    topic: bool,
    root: ModuleV,
)
    requires
        resolve_path(root, n.parts) == Option::Some(TypeDclKindV::StructDcl(id, ms, topic)),
        spec_meta_op_size(TypeSpecV::ScopedName(n), root, RESOLVE_DEPTH as nat) is Ok,
    ensures
        spec_meta_op_size(TypeSpecV::ScopedName(n), root, RESOLVE_DEPTH as nat)
            == spec_top_members_size(ms, 0, root),
{
    lemma_members_size_lift(ms, root, (RESOLVE_DEPTH - 1) as nat);
}

/// Members that are all two-opcode primitives contribute two entries
/// each.
pub proof fn lemma_two_op_members_size(ms: Seq<StructMemberV>, i: int, root: ModuleV)
    requires
        0 <= i <= ms.len(),
        forall|k: int| i <= k < ms.len() ==> is_two_op_type((#[trigger] ms[k]).type_spec),
    ensures
        spec_top_members_size(ms, i, root) == Result::<int, IdlError>::Ok(2 * (ms.len() - i)),
    decreases ms.len() - i,
{
    if i < ms.len() {
        lemma_two_op_members_size(ms, i + 1, root);
        assert(spec_meta_op_size(ms[i].type_spec, root, RESOLVE_DEPTH as nat) == Result::<
            int,
            IdlError,
        >::Ok(2));
    }
}

/// For a struct of N primitive two-opcode members, the total opcode
/// count is 2N plus one terminator, whether or not any member is a key.
pub proof fn lemma_flat_struct_total_op_count(
    id: Seq<char>,
    ms: Seq<StructMemberV>,
    topic: bool,
    root: ModuleV,
)
    requires
        forall|k: int| 0 <= k < ms.len() ==> is_two_op_type((#[trigger] ms[k]).type_spec),
    ensures
        spec_total_op_count(TypeDclKindV::StructDcl(id, ms, topic), root) == Result::<
            int,
            IdlError,
        >::Ok(2 * (ms.len() as int) + 1),
{
    lemma_two_op_members_size(ms, 0, root);
}

// ---------------------------------------------------------------------
// Target-language spellings.
// ---------------------------------------------------------------------

/// The C spelling of a scoped name: an absolute name joins all its
/// components with underscores, a relative one is its last component.
pub open spec fn scoped_c_type(n: ScopedNameV) -> Seq<char> {
    if n.abs {
        spec_join_sep(n.parts, "_"@)
    } else if n.parts.len() > 0 {
        n.parts.last()
    } else {
        Seq::empty()
    }
}

/// Whether a type expression has a C spelling: every type but the
/// absent one and an empty relative name, looking through array
/// elements.
pub open spec fn ctype_writable(t: TypeSpecV) -> bool
    decreases t,
{
    match t {
        TypeSpecV::NoType => false,
        TypeSpecV::ArrayType(e, _dims) => ctype_writable(*e),
        TypeSpecV::ScopedName(n) => n.abs || n.parts.len() > 0,
        _ => true,
    }
}

/// The C spelling of a type expression: an array is spelled as its
/// element (the dimensions follow the declarator), a sequence is the
/// generated sequence type, and the unimplemented kinds render a
/// placeholder.
pub open spec fn c_type_of(t: TypeSpecV) -> Seq<char>
    decreases t,
{
    match t {
        TypeSpecV::NoType => Seq::empty(),
        TypeSpecV::ArrayType(e, _dims) => c_type_of(*e),
        TypeSpecV::SequenceType(_e, _b) => "dds_sequence_t"@,
        TypeSpecV::WideStringType(_) => "NOT IMPLEMENTED"@,
        TypeSpecV::F128Type => "NOT IMPLEMENTED"@,
        TypeSpecV::WideCharType => "NOT IMPLEMENTED"@,
        TypeSpecV::ScopedName(n) => scoped_c_type(n),
        _ => match prim_btype(t) {
            Option::Some(b) => spec_ctype(b),
            Option::None => Seq::empty(),
        },
    }
}

impl IdlScopedName {
    /// The C spelling of this name.
    pub fn get_c_type(&self, _root: &IdlModule) -> (r: String)
        requires
            self@.abs || self@.parts.len() > 0,
        ensures
            r@ == scoped_c_type(self@),
    {
        if self.1 {
            join_sep(&self.0, "_")
        } else {
            let r = self.0[self.0.len() - 1].clone();
            proof {
                assert(self@.parts.last() == self.0@[self.0@.len() - 1]@);
            }
            r
        }
    }
}

impl IdlTypeSpec {
    /// The C spelling of this type expression.
    pub fn get_c_type(&self, root: &IdlModule) -> (r: String)
        requires
            ctype_writable(self@),
        ensures
            r@ == c_type_of(self@),
        decreases self,
    {
        match self {
            IdlTypeSpec::NoType => String::new(),
            IdlTypeSpec::ArrayType(e, _dims) => {
                proof {
                    assert(self@ matches TypeSpecV::ArrayType(bx, _ds) && *bx == (**e)@);
                }
                e.get_c_type(root)
            },
            IdlTypeSpec::SequenceType(_e, _b) => String::from_str("dds_sequence_t"),
            IdlTypeSpec::WideStringType(_) => String::from_str("NOT IMPLEMENTED"),
            IdlTypeSpec::F128Type => String::from_str("NOT IMPLEMENTED"),
            IdlTypeSpec::WideCharType => String::from_str("NOT IMPLEMENTED"),
            IdlTypeSpec::ScopedName(n) => n.get_c_type(root),
            IdlTypeSpec::F32Type => BasicType::new_float().get_c_type(root),
            IdlTypeSpec::F64Type => BasicType::new_double().get_c_type(root),
            IdlTypeSpec::I16Type => BasicType::new_short().get_c_type(root),
            IdlTypeSpec::I32Type => BasicType::new_long().get_c_type(root),
            IdlTypeSpec::I64Type => BasicType::new_longlong().get_c_type(root),
            IdlTypeSpec::U16Type => BasicType::new_ushort().get_c_type(root),
            IdlTypeSpec::U32Type => BasicType::new_ulong().get_c_type(root),
            IdlTypeSpec::U64Type => BasicType::new_ulonglong().get_c_type(root),
            IdlTypeSpec::CharType => BasicType::new_char().get_c_type(root),
            IdlTypeSpec::BooleanType => BasicType::new_boolean().get_c_type(root),
            IdlTypeSpec::OctetType => BasicType::new_octet().get_c_type(root),
            IdlTypeSpec::StringType(_) => BasicType::new_string().get_c_type(root),
        }
    }

    /// Append the C spelling of the type to a header being printed.
    pub fn write_h(&self, out: &mut String, root: &IdlModule)
        requires
            ctype_writable(self@),
        ensures
            final(out)@ == old(out)@ + c_type_of(self@),
    {
        let s = self.get_c_type(root);
        out.append(s.as_str());
    }
}

} // verus!
