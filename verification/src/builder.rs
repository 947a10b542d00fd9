//! The builder: walks a parse tree of rule-tagged nodes and fills the
//! symbol table, reconstructing type expressions, constant expressions
//! and declarations from the grammar's productions.
use crate::ast::{
    declare_const_at, declare_type_at, ensure_path_at, keylist_at, keylist_ok, BinaryOp,
    IdlConstDcl, IdlModule, IdlScopedName, IdlStructMember, IdlSwitchCase, IdlSwitchElement,
    IdlSwitchLabel, IdlTypeDcl, IdlTypeDclKind, IdlTypeSpec, IdlValueExpr, UnaryOp,
};
use crate::model::{
    new_module_v, struct_member_view, struct_members_view, switch_case_view, switch_element_view,
    switch_label_view, type_spec_view, value_expr_view, value_exprs_view, ConstDclV, ModuleV,
    ScopedNameV, StructMemberV, SwitchCaseV, SwitchElementV, SwitchLabelV, TypeDclKindV, TypeSpecV,
    ValueExprV,
};
use crate::text::{split_spaces, str_eq, trim_end_blanks};
use crate::{Configuration, IdlError};
use vstd::prelude::*;
use vstd::string::StrSliceExecFns;
use vstd::string::StringExecFns;

verus! {

/// The grammar productions that the builder distinguishes. Any other
/// production is `Other`: the builder walks through it without reading
/// it.
#[derive(Clone, Copy, PartialEq, Eq, Structural, Debug)]
pub enum RuleKind {
    Specification,
    ModuleDcl,
    StructDef,
    UnionDef,
    TypeDeclarator,
    EnumDcl,
    ConstDcl,
    OtherDirective,
    Member,
    Declarators,
    SimpleDeclarator,
    ArrayDeclarator,
    FixedArraySize,
    Identifier,
    Enumerator,
    ScopedName,
    Float,
    Double,
    LongDouble,
    UnsignedShortInt,
    UnsignedLongInt,
    UnsignedLongLongInt,
    SignedShortInt,
    SignedLongInt,
    SignedLongLongInt,
    CharType,
    WideCharType,
    BooleanType,
    OctetType,
    StringType,
    WideStringType,
    SequenceType,
    ConstExpr,
    UnaryExpr,
    PrimaryExpr,
    Literal,
    OrExpr,
    XorExpr,
    AndExpr,
    LShiftExpr,
    RShiftExpr,
    AddExpr,
    SubExpr,
    MulExpr,
    DivExpr,
    ModExpr,
    DecimalIntegerLiteral,
    OctalIntegerLiteral,
    HexIntegerLiteral,
    FloatingPtLiteral,
    IntegralPart,
    FractionalPart,
    Exponent,
    FloatSuffix,
    BooleanLiteral,
    CharacterLiteral,
    WideCharacterLiteral,
    StringLiteral,
    WideStringLiteral,
    ElementSpec,
    CaseLabel,
    SwitchTypeSpec,
    SwitchBody,
    UnaryOperator,
    Other,
}

/// One node of the parse tree as the builder consumes it: the production
/// that matched, the matched source text, and the child nodes in order.
#[derive(Debug)]
pub struct Node {
    pub rule: RuleKind,
    pub text: String,
    pub children: Vec<Node>,
}

/// Model of a parse-tree node.
#[verifier::ext_equal]
pub struct NodeV {
    pub rule: RuleKind,
    pub text: Seq<char>,
    pub children: Seq<NodeV>,
}

/// The model of a parse-tree node.
pub open spec fn node_view(n: Node) -> NodeV
    decreases n,
{
    NodeV {
        rule: n.rule,
        text: n.text@,
        children: Seq::new(
            n.children@.len(),
            |i: int|
                if 0 <= i < n.children@.len() {
                    node_view(n.children@[i])
                } else {
                    NodeV { rule: RuleKind::Other, text: Seq::empty(), children: Seq::empty() }
                },
        ),
    }
}

impl View for Node {
    type V = NodeV;

    open spec fn view(&self) -> NodeV {
        node_view(*self)
    }
}

// ---------------------------------------------------------------------
// Names and scoped names.
// ---------------------------------------------------------------------

/// The identifier a node carries: its text, when the node is an
/// identifier or an enumerator.
pub open spec fn ident_of(n: NodeV) -> Result<Seq<char>, IdlError> {
    if n.rule == RuleKind::Identifier || n.rule == RuleKind::Enumerator {
        Result::Ok(n.text)
    } else {
        Result::Err(IdlError::ExpectedItem(RuleKind::Identifier))
    }
}

/// Whether a name was written absolute: its text opens with the scope
/// separator.
pub open spec fn starts_with_colons(s: Seq<char>) -> bool {
    s.len() >= 2 && s[0] == ':' && s[1] == ':'
}

/// The path components of a scoped name from child `i` on: each child
/// must carry an identifier.
pub open spec fn scoped_parts(cs: Seq<NodeV>, i: int) -> Result<Seq<Seq<char>>, IdlError>
    decreases cs.len() - i,
{
    if i < 0 || i >= cs.len() {
        Result::Ok(Seq::empty())
    } else if cs[i].rule == RuleKind::Identifier || cs[i].rule == RuleKind::Enumerator {
        match scoped_parts(cs, i + 1) {
            Result::Err(e) => Result::Err(e),
            Result::Ok(ps) => Result::Ok(seq![cs[i].text] + ps),
        }
    } else {
        Result::Err(IdlError::InternalError)
    }
}

/// The scoped name a node describes: its children's identifiers, and the
/// absolute flag from its own text.
pub open spec fn build_scoped_name(n: NodeV) -> Result<ScopedNameV, IdlError> {
    match scoped_parts(n.children, 0) {
        Result::Err(e) => Result::Err(e),
        Result::Ok(ps) => Result::Ok(ScopedNameV { parts: ps, abs: starts_with_colons(n.text) }),
    }
}

/// The identifier a node carries.
fn read_identifier(node: &Node) -> (r: Result<String, IdlError>)
    ensures
        match ident_of(node@) {
            Result::Ok(t) => r matches Result::Ok(v) && v@ == t,
            Result::Err(e) => r == Result::<String, IdlError>::Err(e),
        },
{
    if node.rule == RuleKind::Identifier || node.rule == RuleKind::Enumerator {
        Result::Ok(node.text.clone())
    } else {
        Result::Err(IdlError::ExpectedItem(RuleKind::Identifier))
    }
}

/// The path components of a scoped name from child `i` on.
fn read_scoped_parts(cs: &Vec<Node>, i: usize) -> (r: Result<Vec<String>, IdlError>)
    requires
        i <= cs.len(),
    ensures
        match scoped_parts(node_views(cs@), i as int) {
            Result::Ok(ps) => r matches Result::Ok(v) && v.deep_view() == ps,
            Result::Err(e) => r == Result::<Vec<String>, IdlError>::Err(e),
        },
    decreases cs.len() - i,
{
    if i == cs.len() {
        let r: Vec<String> = Vec::new();
        proof {
            assert(r.deep_view() =~= Seq::<Seq<char>>::empty());
        }
        Result::Ok(r)
    } else if cs[i].rule == RuleKind::Identifier || cs[i].rule == RuleKind::Enumerator {
        match read_scoped_parts(cs, i + 1) {
            Result::Err(e) => Result::Err(e),
            Result::Ok(mut ps) => {
                let mut v: Vec<String> = Vec::new();
                v.push(cs[i].text.clone());
                let ghost ps_view = ps.deep_view();
                v.append(&mut ps);
                proof {
                    assert(v.deep_view() =~= seq![cs@[i as int].text@] + ps_view);
                }
                Result::Ok(v)
            },
        }
    } else {
        Result::Err(IdlError::InternalError)
    }
}

/// The models of a vector of nodes.
pub open spec fn node_views(cs: Seq<Node>) -> Seq<NodeV> {
    Seq::new(cs.len(), |i: int| node_view(cs[i]))
}

// ---------------------------------------------------------------------
// Constant expressions: one operator application per production, the
// literals kept as their exact source text.
// ---------------------------------------------------------------------

/// The four optional parts of a floating literal, collected from the
/// children from `i` on; a later part of the same kind replaces an
/// earlier one, and any other production is a grammar-contract
/// violation.
pub open spec fn float_parts(
    cs: Seq<NodeV>,
    i: int,
    acc: (Option<Seq<char>>, Option<Seq<char>>, Option<Seq<char>>, Option<Seq<char>>),
) -> Result<(Option<Seq<char>>, Option<Seq<char>>, Option<Seq<char>>, Option<Seq<char>>), IdlError>
    decreases cs.len() - i,
{
    if i < 0 || i >= cs.len() {
        Result::Ok(acc)
    } else if cs[i].rule == RuleKind::IntegralPart {
        float_parts(cs, i + 1, (Option::Some(cs[i].text), acc.1, acc.2, acc.3))
    } else if cs[i].rule == RuleKind::FractionalPart {
        float_parts(cs, i + 1, (acc.0, Option::Some(cs[i].text), acc.2, acc.3))
    } else if cs[i].rule == RuleKind::Exponent {
        float_parts(cs, i + 1, (acc.0, acc.1, Option::Some(cs[i].text), acc.3))
    } else if cs[i].rule == RuleKind::FloatSuffix {
        float_parts(cs, i + 1, (acc.0, acc.1, acc.2, Option::Some(cs[i].text)))
    } else {
        Result::Err(IdlError::InternalError)
    }
}

/// The unary operator named by a token.
pub open spec fn unary_op_of(t: Seq<char>) -> Result<UnaryOp, IdlError> {
    if t == "-"@ {
        Result::Ok(UnaryOp::Neg)
    } else if t == "+"@ {
        Result::Ok(UnaryOp::Pos)
    } else if t == "~"@ {
        Result::Ok(UnaryOp::Inverse)
    } else {
        Result::Err(IdlError::ExpectedItem(RuleKind::UnaryOperator))
    }
}

/// The constant expression a node describes.
///
/// A binary production wraps its single operand; the left operand is
/// accumulated by the enclosing production's pair node. Literals map to
/// their variants with the exact source text. A parenthesized
/// sub-expression braces its inner expression.
pub open spec fn build_const_expr(n: NodeV) -> Result<ValueExprV, IdlError>
    decreases n,
{
    let cs = n.children;
    if n.rule == RuleKind::ConstExpr {
        if cs.len() >= 2 {
            match (build_const_expr(cs[0]), build_const_expr(cs[1])) {
                (Result::Ok(a), Result::Ok(b)) => Result::Ok(
                    ValueExprV::Expr(Box::new(a), Box::new(b)),
                ),
                (Result::Err(e), _) => Result::Err(e),
                (_, Result::Err(e)) => Result::Err(e),
            }
        } else if cs.len() == 1 {
            build_const_expr(cs[0])
        } else {
            Result::Err(IdlError::ExpectedItem(RuleKind::ConstExpr))
        }
    } else if n.rule == RuleKind::UnaryExpr {
        if cs.len() >= 2 {
            match (unary_op_of(cs[0].text), build_const_expr(cs[1])) {
                (Result::Ok(op), Result::Ok(e)) => Result::Ok(ValueExprV::UnaryOp(op, Box::new(e))),
                (_, Result::Err(e)) => Result::Err(e),
                (Result::Err(e), _) => Result::Err(e),
            }
        } else if cs.len() == 1 {
            build_const_expr(cs[0])
        } else {
            Result::Err(IdlError::ExpectedItem(RuleKind::PrimaryExpr))
        }
    } else if n.rule == RuleKind::PrimaryExpr {
        if cs.len() == 0 {
            Result::Err(IdlError::ExpectedItem(RuleKind::PrimaryExpr))
        } else if cs[0].rule == RuleKind::ScopedName {
            match build_scoped_name(cs[0]) {
                Result::Err(e) => Result::Err(e),
                Result::Ok(sn) => Result::Ok(ValueExprV::ScopedName(sn)),
            }
        } else if cs[0].rule == RuleKind::Literal {
            build_const_expr(cs[0])
        } else if cs[0].rule == RuleKind::ConstExpr {
            match build_const_expr(cs[0]) {
                Result::Err(e) => Result::Err(e),
                Result::Ok(e) => Result::Ok(ValueExprV::Brace(Box::new(e))),
            }
        } else {
            Result::Err(IdlError::ExpectedItem(RuleKind::PrimaryExpr))
        }
    } else if n.rule == RuleKind::AndExpr {
        build_binary(BinaryOp::And, cs)
    } else if n.rule == RuleKind::OrExpr {
        build_binary(BinaryOp::Or, cs)
    } else if n.rule == RuleKind::XorExpr {
        build_binary(BinaryOp::Xor, cs)
    } else if n.rule == RuleKind::LShiftExpr {
        build_binary(BinaryOp::LShift, cs)
    } else if n.rule == RuleKind::RShiftExpr {
        build_binary(BinaryOp::RShift, cs)
    } else if n.rule == RuleKind::AddExpr {
        build_binary(BinaryOp::Add, cs)
    } else if n.rule == RuleKind::SubExpr {
        build_binary(BinaryOp::Sub, cs)
    } else if n.rule == RuleKind::MulExpr {
        build_binary(BinaryOp::Mul, cs)
    } else if n.rule == RuleKind::DivExpr {
        build_binary(BinaryOp::Div, cs)
    } else if n.rule == RuleKind::ModExpr {
        build_binary(BinaryOp::Mod, cs)
    } else if n.rule == RuleKind::DecimalIntegerLiteral {
        Result::Ok(ValueExprV::DecLiteral(n.text))
    } else if n.rule == RuleKind::OctalIntegerLiteral {
        Result::Ok(ValueExprV::OctLiteral(n.text))
    } else if n.rule == RuleKind::HexIntegerLiteral {
        Result::Ok(ValueExprV::HexLiteral(n.text))
    } else if n.rule == RuleKind::FloatingPtLiteral {
        match float_parts(cs, 0, (Option::None, Option::None, Option::None, Option::None)) {
            Result::Err(e) => Result::Err(e),
            Result::Ok((a, b, c, d)) => Result::Ok(ValueExprV::FloatLiteral(a, b, c, d)),
        }
    } else if n.rule == RuleKind::BooleanLiteral {
        Result::Ok(ValueExprV::BooleanLiteral(n.text == "TRUE"@))
    } else if n.rule == RuleKind::CharacterLiteral {
        Result::Ok(ValueExprV::CharLiteral(n.text))
    } else if n.rule == RuleKind::WideCharacterLiteral {
        Result::Ok(ValueExprV::WideCharLiteral(n.text))
    } else if n.rule == RuleKind::StringLiteral {
        Result::Ok(ValueExprV::StringLiteral(n.text))
    } else if n.rule == RuleKind::WideStringLiteral {
        Result::Ok(ValueExprV::WideStringLiteral(n.text))
    } else {
        if cs.len() == 0 {
            Result::Err(IdlError::InternalError)
        } else {
            build_const_expr(cs[0])
        }
    }
}

/// A binary production reduced to its operator wrapping its single
/// operand child.
pub open spec fn build_binary(op: BinaryOp, cs: Seq<NodeV>) -> Result<ValueExprV, IdlError>
    decreases cs,
{
    if cs.len() == 0 {
        Result::Err(IdlError::InternalError)
    } else {
        match build_const_expr(cs[0]) {
            Result::Err(e) => Result::Err(e),
            Result::Ok(e) => Result::Ok(ValueExprV::BinaryOp(op, Box::new(e))),
        }
    }
}

/// The four optional parts of a floating literal from child `i` on.
fn read_float_parts(
    cs: &Vec<Node>,
    i: usize,
    acc: (Option<String>, Option<String>, Option<String>, Option<String>),
) -> (r: Result<(Option<String>, Option<String>, Option<String>, Option<String>), IdlError>)
    requires
        i <= cs.len(),
    ensures
        match float_parts(
            node_views(cs@),
            i as int,
            (acc.0.deep_view(), acc.1.deep_view(), acc.2.deep_view(), acc.3.deep_view()),
        ) {
            Result::Ok(t) => r matches Result::Ok(v) && v.0.deep_view() == t.0 && v.1.deep_view()
                == t.1 && v.2.deep_view() == t.2 && v.3.deep_view() == t.3,
            Result::Err(e) => r == Result::<
                (Option<String>, Option<String>, Option<String>, Option<String>),
                IdlError,
            >::Err(e),
        },
    decreases cs.len() - i,
{
    if i == cs.len() {
        Result::Ok(acc)
    } else if cs[i].rule == RuleKind::IntegralPart {
        read_float_parts(cs, i + 1, (Option::Some(cs[i].text.clone()), acc.1, acc.2, acc.3))
    } else if cs[i].rule == RuleKind::FractionalPart {
        read_float_parts(cs, i + 1, (acc.0, Option::Some(cs[i].text.clone()), acc.2, acc.3))
    } else if cs[i].rule == RuleKind::Exponent {
        read_float_parts(cs, i + 1, (acc.0, acc.1, Option::Some(cs[i].text.clone()), acc.3))
    } else if cs[i].rule == RuleKind::FloatSuffix {
        read_float_parts(cs, i + 1, (acc.0, acc.1, acc.2, Option::Some(cs[i].text.clone())))
    } else {
        Result::Err(IdlError::InternalError)
    }
}

/// The constant expression a node describes.
fn read_const_expr_node(node: &Node) -> (r: Result<Box<IdlValueExpr>, IdlError>)
    ensures
        match build_const_expr(node@) {
            Result::Ok(ev) => r matches Result::Ok(v) && v@ == ev,
            Result::Err(e) => r == Result::<Box<IdlValueExpr>, IdlError>::Err(e),
        },
    decreases node, 0int,
{
    proof {
        assert(node_views(node.children@) =~= node@.children);
    }
    let cs = &node.children;
    match node.rule {
        RuleKind::ConstExpr => {
            if cs.len() >= 2 {
                match read_const_expr_node(&cs[0]) {
                    Result::Err(e) => Result::Err(e),
                    Result::Ok(a) => match read_const_expr_node(&cs[1]) {
                        Result::Err(e) => Result::Err(e),
                        Result::Ok(b) => Result::Ok(Box::new(IdlValueExpr::Expr(a, b))),
                    },
                }
            } else if cs.len() == 1 {
                read_const_expr_node(&cs[0])
            } else {
                Result::Err(IdlError::ExpectedItem(RuleKind::ConstExpr))
            }
        },
        RuleKind::UnaryExpr => {
            if cs.len() >= 2 {
                match read_const_expr_node(&cs[1]) {
                    Result::Err(e) => Result::Err(e),
                    Result::Ok(e) => {
                        if str_eq(cs[0].text.as_str(), "-") {
                            Result::Ok(Box::new(IdlValueExpr::UnaryOp(UnaryOp::Neg, e)))
                        } else if str_eq(cs[0].text.as_str(), "+") {
                            Result::Ok(Box::new(IdlValueExpr::UnaryOp(UnaryOp::Pos, e)))
                        } else if str_eq(cs[0].text.as_str(), "~") {
                            Result::Ok(Box::new(IdlValueExpr::UnaryOp(UnaryOp::Inverse, e)))
                        } else {
                            Result::Err(IdlError::ExpectedItem(RuleKind::UnaryOperator))
                        }
                    },
                }
            } else if cs.len() == 1 {
                read_const_expr_node(&cs[0])
            } else {
                Result::Err(IdlError::ExpectedItem(RuleKind::PrimaryExpr))
            }
        },
        RuleKind::PrimaryExpr => {
            if cs.len() == 0 {
                Result::Err(IdlError::ExpectedItem(RuleKind::PrimaryExpr))
            } else if cs[0].rule == RuleKind::ScopedName {
                match read_scoped_name(&cs[0]) {
                    Result::Err(e) => Result::Err(e),
                    Result::Ok(sn) => Result::Ok(Box::new(IdlValueExpr::ScopedName(sn))),
                }
            } else if cs[0].rule == RuleKind::Literal {
                read_const_expr_node(&cs[0])
            } else if cs[0].rule == RuleKind::ConstExpr {
                match read_const_expr_node(&cs[0]) {
                    Result::Err(e) => Result::Err(e),
                    Result::Ok(e) => Result::Ok(Box::new(IdlValueExpr::Brace(e))),
                }
            } else {
                Result::Err(IdlError::ExpectedItem(RuleKind::PrimaryExpr))
            }
        },
        RuleKind::AndExpr => read_binary(BinaryOp::And, cs),
        RuleKind::OrExpr => read_binary(BinaryOp::Or, cs),
        RuleKind::XorExpr => read_binary(BinaryOp::Xor, cs),
        RuleKind::LShiftExpr => read_binary(BinaryOp::LShift, cs),
        RuleKind::RShiftExpr => read_binary(BinaryOp::RShift, cs),
        RuleKind::AddExpr => read_binary(BinaryOp::Add, cs),
        RuleKind::SubExpr => read_binary(BinaryOp::Sub, cs),
        RuleKind::MulExpr => read_binary(BinaryOp::Mul, cs),
        RuleKind::DivExpr => read_binary(BinaryOp::Div, cs),
        RuleKind::ModExpr => read_binary(BinaryOp::Mod, cs),
        RuleKind::DecimalIntegerLiteral => Result::Ok(
            Box::new(IdlValueExpr::DecLiteral(node.text.clone())),
        ),
        RuleKind::OctalIntegerLiteral => Result::Ok(
            Box::new(IdlValueExpr::OctLiteral(node.text.clone())),
        ),
        RuleKind::HexIntegerLiteral => Result::Ok(
            Box::new(IdlValueExpr::HexLiteral(node.text.clone())),
        ),
        RuleKind::FloatingPtLiteral => {
            match read_float_parts(cs, 0, (Option::None, Option::None, Option::None, Option::None)) {
                Result::Err(e) => Result::Err(e),
                Result::Ok((a, b, c, d)) => Result::Ok(
                    Box::new(IdlValueExpr::FloatLiteral(a, b, c, d)),
                ),
            }
        },
        RuleKind::BooleanLiteral => Result::Ok(
            Box::new(IdlValueExpr::BooleanLiteral(str_eq(node.text.as_str(), "TRUE"))),
        ),
        RuleKind::CharacterLiteral => Result::Ok(
            Box::new(IdlValueExpr::CharLiteral(node.text.clone())),
        ),
        RuleKind::WideCharacterLiteral => Result::Ok(
            Box::new(IdlValueExpr::WideCharLiteral(node.text.clone())),
        ),
        RuleKind::StringLiteral => Result::Ok(
            Box::new(IdlValueExpr::StringLiteral(node.text.clone())),
        ),
        RuleKind::WideStringLiteral => Result::Ok(
            Box::new(IdlValueExpr::WideStringLiteral(node.text.clone())),
        ),
        _ => {
            if cs.len() == 0 {
                Result::Err(IdlError::InternalError)
            } else {
                read_const_expr_node(&cs[0])
            }
        },
    }
}

/// A binary production reduced to one operator application.
fn read_binary(op: BinaryOp, cs: &Vec<Node>) -> (r: Result<Box<IdlValueExpr>, IdlError>)
    ensures
        match build_binary(op, node_views(cs@)) {
            Result::Ok(ev) => r matches Result::Ok(v) && v@ == ev,
            Result::Err(e) => r == Result::<Box<IdlValueExpr>, IdlError>::Err(e),
        },
    decreases cs, 1int,
{
    if cs.len() == 0 {
        Result::Err(IdlError::InternalError)
    } else {
        match read_const_expr_node(&cs[0]) {
            Result::Err(e) => Result::Err(e),
            Result::Ok(e) => Result::Ok(Box::new(IdlValueExpr::BinaryOp(op, e))),
        }
    }
}

// ---------------------------------------------------------------------
// Type expressions.
// ---------------------------------------------------------------------

/// The type expression a node describes: the primitive productions map
/// to their kinds, strings and sequences carry their optional bounds,
/// and any other production descends into its first child.
pub open spec fn build_type_spec(n: NodeV) -> Result<TypeSpecV, IdlError>
    decreases n,
{
    let cs = n.children;
    if n.rule == RuleKind::Float {
        Result::Ok(TypeSpecV::F32Type)
    } else if n.rule == RuleKind::Double {
        Result::Ok(TypeSpecV::F64Type)
    } else if n.rule == RuleKind::LongDouble {
        Result::Ok(TypeSpecV::F128Type)
    } else if n.rule == RuleKind::UnsignedShortInt {
        Result::Ok(TypeSpecV::U16Type)
    } else if n.rule == RuleKind::UnsignedLongLongInt {
        Result::Ok(TypeSpecV::U64Type)
    } else if n.rule == RuleKind::UnsignedLongInt {
        Result::Ok(TypeSpecV::U32Type)
    } else if n.rule == RuleKind::SignedShortInt {
        Result::Ok(TypeSpecV::I16Type)
    } else if n.rule == RuleKind::SignedLongLongInt {
        Result::Ok(TypeSpecV::I64Type)
    } else if n.rule == RuleKind::SignedLongInt {
        Result::Ok(TypeSpecV::I32Type)
    } else if n.rule == RuleKind::CharType {
        Result::Ok(TypeSpecV::CharType)
    } else if n.rule == RuleKind::WideCharType {
        Result::Ok(TypeSpecV::WideCharType)
    } else if n.rule == RuleKind::BooleanType {
        Result::Ok(TypeSpecV::BooleanType)
    } else if n.rule == RuleKind::OctetType {
        Result::Ok(TypeSpecV::OctetType)
    } else if n.rule == RuleKind::StringType {
        if cs.len() == 0 {
            Result::Ok(TypeSpecV::StringType(Option::None))
        } else {
            match build_const_expr(cs[0]) {
                Result::Err(e) => Result::Err(e),
                Result::Ok(b) => Result::Ok(TypeSpecV::StringType(Option::Some(b))),
            }
        }
    } else if n.rule == RuleKind::WideStringType {
        if cs.len() == 0 {
            Result::Ok(TypeSpecV::WideStringType(Option::None))
        } else {
            match build_const_expr(cs[0]) {
                Result::Err(e) => Result::Err(e),
                Result::Ok(b) => Result::Ok(TypeSpecV::WideStringType(Option::Some(b))),
            }
        }
    } else if n.rule == RuleKind::SequenceType {
        if cs.len() == 0 {
            Result::Err(IdlError::InternalError)
        } else {
            match build_type_spec(cs[0]) {
                Result::Err(e) => Result::Err(e),
                Result::Ok(t) => if cs.len() == 1 {
                    Result::Ok(TypeSpecV::SequenceType(Box::new(t), Option::None))
                } else {
                    match build_const_expr(cs[1]) {
                        Result::Err(e) => Result::Err(e),
                        Result::Ok(b) => Result::Ok(
                            TypeSpecV::SequenceType(Box::new(t), Option::Some(b)),
                        ),
                    }
                },
            }
        }
    } else if n.rule == RuleKind::ScopedName {
        match build_scoped_name(n) {
            Result::Err(e) => Result::Err(e),
            Result::Ok(sn) => Result::Ok(TypeSpecV::ScopedName(sn)),
        }
    } else {
        if cs.len() == 0 {
            Result::Err(IdlError::InternalError)
        } else {
            build_type_spec(cs[0])
        }
    }
}

/// The dimension expressions of an array declarator, one per size child
/// from `i` on; each size child wraps one constant expression.
pub open spec fn build_array_sizes(cs: Seq<NodeV>, i: int) -> Result<Seq<ValueExprV>, IdlError>
    decreases cs.len() - i,
{
    if i < 0 || i >= cs.len() {
        Result::Ok(Seq::empty())
    } else if cs[i].children.len() == 0 {
        Result::Err(IdlError::InternalError)
    } else {
        match build_const_expr(cs[i].children[0]) {
            Result::Err(e) => Result::Err(e),
            Result::Ok(v) => match build_array_sizes(cs, i + 1) {
                Result::Err(e) => Result::Err(e),
                Result::Ok(vs) => Result::Ok(seq![v] + vs),
            },
        }
    }
}

/// The member a declarator node declares for a given type: a plain name,
/// or a name with array dimensions around the type.
pub open spec fn build_member_decl(n: NodeV, t: TypeSpecV) -> Result<StructMemberV, IdlError> {
    if n.children.len() == 0 {
        Result::Err(IdlError::InternalError)
    } else {
        let decl = n.children[0];
        if decl.rule == RuleKind::SimpleDeclarator {
            if decl.children.len() == 0 {
                Result::Err(IdlError::InternalError)
            } else {
                match ident_of(decl.children[0]) {
                    Result::Err(e) => Result::Err(e),
                    Result::Ok(id) => Result::Ok(
                        StructMemberV { id, type_spec: t, is_key: false },
                    ),
                }
            }
        } else if decl.rule == RuleKind::ArrayDeclarator {
            if decl.children.len() == 0 {
                Result::Err(IdlError::InternalError)
            } else {
                match ident_of(decl.children[0]) {
                    Result::Err(e) => Result::Err(e),
                    Result::Ok(id) => match build_array_sizes(decl.children, 1) {
                        Result::Err(e) => Result::Err(e),
                        Result::Ok(sizes) => Result::Ok(
                            StructMemberV {
                                id,
                                type_spec: TypeSpecV::ArrayType(Box::new(t), sizes),
                                is_key: false,
                            },
                        ),
                    },
                }
            }
        } else {
            Result::Err(IdlError::InternalError)
        }
    }
}

/// The members declared by the declarator children from `i` on, all of
/// the same type.
pub open spec fn build_members_of(cs: Seq<NodeV>, i: int, t: TypeSpecV) -> Result<
    Seq<StructMemberV>,
    IdlError,
>
    decreases cs.len() - i,
{
    if i < 0 || i >= cs.len() {
        Result::Ok(Seq::empty())
    } else {
        match build_member_decl(cs[i], t) {
            Result::Err(e) => Result::Err(e),
            Result::Ok(m) => match build_members_of(cs, i + 1, t) {
                Result::Err(e) => Result::Err(e),
                Result::Ok(ms) => Result::Ok(seq![m] + ms),
            },
        }
    }
}

/// The members one member production declares: its type applied to each
/// of its declarators.
pub open spec fn build_struct_member(n: NodeV) -> Result<Seq<StructMemberV>, IdlError> {
    if n.children.len() < 2 {
        Result::Err(IdlError::InternalError)
    } else {
        match build_type_spec(n.children[0]) {
            Result::Err(e) => Result::Err(e),
            Result::Ok(t) => build_members_of(n.children[1].children, 0, t),
        }
    }
}

/// The members of a struct body from child `i` on, flattened in
/// declaration order.
pub open spec fn build_struct_members(cs: Seq<NodeV>, i: int) -> Result<
    Seq<StructMemberV>,
    IdlError,
>
    decreases cs.len() - i,
{
    if i < 0 || i >= cs.len() {
        Result::Ok(Seq::empty())
    } else {
        match build_struct_member(cs[i]) {
            Result::Err(e) => Result::Err(e),
            Result::Ok(ms) => match build_struct_members(cs, i + 1) {
                Result::Err(e) => Result::Err(e),
                Result::Ok(ms2) => Result::Ok(ms + ms2),
            },
        }
    }
}

/// The type expression a node describes.
fn read_type_spec_node(node: &Node) -> (r: Result<Box<IdlTypeSpec>, IdlError>)
    ensures
        match build_type_spec(node@) {
            Result::Ok(tv) => r matches Result::Ok(v) && v@ == tv,
            Result::Err(e) => r == Result::<Box<IdlTypeSpec>, IdlError>::Err(e),
        },
    decreases node,
{
    proof {
        assert(node_views(node.children@) =~= node@.children);
    }
    let cs = &node.children;
    match node.rule {
        RuleKind::Float => Result::Ok(Box::new(IdlTypeSpec::F32Type)),
        RuleKind::Double => Result::Ok(Box::new(IdlTypeSpec::F64Type)),
        RuleKind::LongDouble => Result::Ok(Box::new(IdlTypeSpec::F128Type)),
        RuleKind::UnsignedShortInt => Result::Ok(Box::new(IdlTypeSpec::U16Type)),
        RuleKind::UnsignedLongLongInt => Result::Ok(Box::new(IdlTypeSpec::U64Type)),
        RuleKind::UnsignedLongInt => Result::Ok(Box::new(IdlTypeSpec::U32Type)),
        RuleKind::SignedShortInt => Result::Ok(Box::new(IdlTypeSpec::I16Type)),
        RuleKind::SignedLongLongInt => Result::Ok(Box::new(IdlTypeSpec::I64Type)),
        RuleKind::SignedLongInt => Result::Ok(Box::new(IdlTypeSpec::I32Type)),
        RuleKind::CharType => Result::Ok(Box::new(IdlTypeSpec::CharType)),
        RuleKind::WideCharType => Result::Ok(Box::new(IdlTypeSpec::WideCharType)),
        RuleKind::BooleanType => Result::Ok(Box::new(IdlTypeSpec::BooleanType)),
        RuleKind::OctetType => Result::Ok(Box::new(IdlTypeSpec::OctetType)),
        RuleKind::StringType => {
            if cs.len() == 0 {
                Result::Ok(Box::new(IdlTypeSpec::StringType(Option::None)))
            } else {
                match read_const_expr_node(&cs[0]) {
                    Result::Err(e) => Result::Err(e),
                    Result::Ok(b) => Result::Ok(
                        Box::new(IdlTypeSpec::StringType(Option::Some(b))),
                    ),
                }
            }
        },
        RuleKind::WideStringType => {
            if cs.len() == 0 {
                Result::Ok(Box::new(IdlTypeSpec::WideStringType(Option::None)))
            } else {
                match read_const_expr_node(&cs[0]) {
                    Result::Err(e) => Result::Err(e),
                    Result::Ok(b) => Result::Ok(
                        Box::new(IdlTypeSpec::WideStringType(Option::Some(b))),
                    ),
                }
            }
        },
        RuleKind::SequenceType => {
            if cs.len() == 0 {
                Result::Err(IdlError::InternalError)
            } else {
                match read_type_spec_node(&cs[0]) {
                    Result::Err(e) => Result::Err(e),
                    Result::Ok(t) => {
                        if cs.len() == 1 {
                            Result::Ok(Box::new(IdlTypeSpec::SequenceType(t, Option::None)))
                        } else {
                            match read_const_expr_node(&cs[1]) {
                                Result::Err(e) => Result::Err(e),
                                Result::Ok(b) => Result::Ok(
                                    Box::new(IdlTypeSpec::SequenceType(t, Option::Some(b))),
                                ),
                            }
                        }
                    },
                }
            }
        },
        RuleKind::ScopedName => {
            match read_scoped_name(node) {
                Result::Err(e) => Result::Err(e),
                Result::Ok(sn) => Result::Ok(Box::new(IdlTypeSpec::ScopedName(sn))),
            }
        },
        _ => {
            if cs.len() == 0 {
                Result::Err(IdlError::InternalError)
            } else {
                read_type_spec_node(&cs[0])
            }
        },
    }
}

/// The dimension expressions of an array declarator from size child `i`
/// on.
fn read_array_sizes(cs: &Vec<Node>, i: usize) -> (r: Result<Vec<IdlValueExpr>, IdlError>)
    requires
        i <= cs.len(),
    ensures
        match build_array_sizes(node_views(cs@), i as int) {
            Result::Ok(vs) => r matches Result::Ok(v) && value_exprs_view(v@) == vs,
            Result::Err(e) => r == Result::<Vec<IdlValueExpr>, IdlError>::Err(e),
        },
    decreases cs.len() - i,
{
    if i == cs.len() {
        let r: Vec<IdlValueExpr> = Vec::new();
        proof {
            assert(value_exprs_view(r@) =~= Seq::<ValueExprV>::empty());
        }
        Result::Ok(r)
    } else if cs[i].children.len() == 0 {
        proof {
            assert(node_views(cs@)[i as int].children.len() == 0);
        }
        Result::Err(IdlError::InternalError)
    } else {
        proof {
            assert(node_views(cs@)[i as int].children[0] == cs@[i as int].children@[0]@);
        }
        match read_const_expr_node(&cs[i].children[0]) {
            Result::Err(e) => Result::Err(e),
            Result::Ok(v) => match read_array_sizes(cs, i + 1) {
                Result::Err(e) => Result::Err(e),
                Result::Ok(mut vs) => {
                    let mut out: Vec<IdlValueExpr> = Vec::new();
                    out.push(*v);
                    let ghost vs_view = value_exprs_view(vs@);
                    out.append(&mut vs);
                    proof {
                        assert(value_exprs_view(out@) =~= seq![value_expr_view(*v)] + vs_view);
                    }
                    Result::Ok(out)
                },
            },
        }
    }
}

/// The member a declarator node declares for a given type.
fn read_member_decl(node: &Node, type_spec: &Box<IdlTypeSpec>) -> (r: Result<
    IdlStructMember,
    IdlError,
>)
    ensures
        match build_member_decl(node@, type_spec@) {
            Result::Ok(mv) => r matches Result::Ok(m) && m@ == mv,
            Result::Err(e) => r == Result::<IdlStructMember, IdlError>::Err(e),
        },
{
    proof {
        assert(node_views(node.children@) =~= node@.children);
    }
    if node.children.len() == 0 {
        Result::Err(IdlError::InternalError)
    } else {
        let decl = &node.children[0];
        proof {
            assert(node_views(decl.children@) =~= decl@.children);
        }
        match decl.rule {
            RuleKind::SimpleDeclarator => {
                if decl.children.len() == 0 {
                    Result::Err(IdlError::InternalError)
                } else {
                    match read_identifier(&decl.children[0]) {
                        Result::Err(e) => Result::Err(e),
                        Result::Ok(id) => Result::Ok(
                            IdlStructMember {
                                id,
                                type_spec: Box::new(type_spec.deep_clone()),
                                is_key: false,
                            },
                        ),
                    }
                }
            },
            RuleKind::ArrayDeclarator => {
                if decl.children.len() == 0 {
                    Result::Err(IdlError::InternalError)
                } else {
                    match read_identifier(&decl.children[0]) {
                        Result::Err(e) => Result::Err(e),
                        Result::Ok(id) => match read_array_sizes(&decl.children, 1) {
                            Result::Err(e) => Result::Err(e),
                            Result::Ok(sizes) => Result::Ok(
                                IdlStructMember {
                                    id,
                                    type_spec: Box::new(
                                        IdlTypeSpec::ArrayType(
                                            Box::new(type_spec.deep_clone()),
                                            sizes,
                                        ),
                                    ),
                                    is_key: false,
                                },
                            ),
                        },
                    }
                }
            },
            _ => Result::Err(IdlError::InternalError),
        }
    }
}

/// The members declared by the declarator children from `i` on.
fn read_members_of(cs: &Vec<Node>, i: usize, type_spec: &Box<IdlTypeSpec>) -> (r: Result<
    Vec<IdlStructMember>,
    IdlError,
>)
    requires
        i <= cs.len(),
    ensures
        match build_members_of(node_views(cs@), i as int, type_spec@) {
            Result::Ok(ms) => r matches Result::Ok(v) && struct_members_view(v@) == ms,
            Result::Err(e) => r == Result::<Vec<IdlStructMember>, IdlError>::Err(e),
        },
    decreases cs.len() - i,
{
    if i == cs.len() {
        let r: Vec<IdlStructMember> = Vec::new();
        proof {
            assert(struct_members_view(r@) =~= Seq::<StructMemberV>::empty());
        }
        Result::Ok(r)
    } else {
        match read_member_decl(&cs[i], type_spec) {
            Result::Err(e) => Result::Err(e),
            Result::Ok(m) => match read_members_of(cs, i + 1, type_spec) {
                Result::Err(e) => Result::Err(e),
                Result::Ok(mut ms) => {
                    let ghost m_view = struct_member_view(m);
                    let mut out: Vec<IdlStructMember> = Vec::new();
                    out.push(m);
                    let ghost ms_view = struct_members_view(ms@);
                    out.append(&mut ms);
                    proof {
                        assert(struct_members_view(out@) =~= seq![m_view] + ms_view);
                    }
                    Result::Ok(out)
                },
            },
        }
    }
}

/// The members one member production declares.
fn read_struct_member(node: &Node) -> (r: Result<Vec<IdlStructMember>, IdlError>)
    ensures
        match build_struct_member(node@) {
            Result::Ok(ms) => r matches Result::Ok(v) && struct_members_view(v@) == ms,
            Result::Err(e) => r == Result::<Vec<IdlStructMember>, IdlError>::Err(e),
        },
{
    proof {
        assert(node_views(node.children@) =~= node@.children);
    }
    if node.children.len() < 2 {
        Result::Err(IdlError::InternalError)
    } else {
        match read_type_spec_node(&node.children[0]) {
            Result::Err(e) => Result::Err(e),
            Result::Ok(t) => {
                proof {
                    assert(node_views(node.children[1].children@) =~= node@.children[1].children);
                }
                read_members_of(&node.children[1].children, 0, &t)
            },
        }
    }
}

/// The members of a struct body from child `i` on.
fn read_struct_members(cs: &Vec<Node>, i: usize) -> (r: Result<Vec<IdlStructMember>, IdlError>)
    requires
        i <= cs.len(),
    ensures
        match build_struct_members(node_views(cs@), i as int) {
            Result::Ok(ms) => r matches Result::Ok(v) && struct_members_view(v@) == ms,
            Result::Err(e) => r == Result::<Vec<IdlStructMember>, IdlError>::Err(e),
        },
    decreases cs.len() - i,
{
    if i == cs.len() {
        let r: Vec<IdlStructMember> = Vec::new();
        proof {
            assert(struct_members_view(r@) =~= Seq::<StructMemberV>::empty());
        }
        Result::Ok(r)
    } else {
        match read_struct_member(&cs[i]) {
            Result::Err(e) => Result::Err(e),
            Result::Ok(mut ms) => match read_struct_members(cs, i + 1) {
                Result::Err(e) => Result::Err(e),
                Result::Ok(mut ms2) => {
                    let ghost a = struct_members_view(ms@);
                    let ghost b = struct_members_view(ms2@);
                    ms.append(&mut ms2);
                    proof {
                        assert(struct_members_view(ms@) =~= a + b);
                    }
                    Result::Ok(ms)
                },
            },
        }
    }
}

// ---------------------------------------------------------------------
// Union arms.
// ---------------------------------------------------------------------

/// The element a declarator node declares for a given type.
pub open spec fn build_element_decl(n: NodeV, t: TypeSpecV) -> Result<SwitchElementV, IdlError> {
    match build_member_decl(n, t) {
        Result::Err(e) => Result::Err(e),
        Result::Ok(m) => Result::Ok(SwitchElementV { id: m.id, type_spec: m.type_spec }),
    }
}

/// The element one element-spec production declares: its type applied to
/// its declarator.
pub open spec fn build_element_spec(n: NodeV) -> Result<SwitchElementV, IdlError> {
    if n.children.len() < 2 {
        Result::Err(IdlError::InternalError)
    } else {
        match build_type_spec(n.children[0]) {
            Result::Err(e) => Result::Err(e),
            Result::Ok(t) => build_element_decl(n.children[1], t),
        }
    }
}

/// The label one case-label production declares: a labelled value, or
/// the default label when it has no value.
pub open spec fn build_switch_label(n: NodeV) -> Result<SwitchLabelV, IdlError> {
    if n.children.len() == 0 {
        Result::Ok(SwitchLabelV::Default)
    } else {
        match build_const_expr(n.children[0]) {
            Result::Err(e) => Result::Err(e),
            Result::Ok(v) => Result::Ok(SwitchLabelV::Label(v)),
        }
    }
}

/// The labels among the children from `i` on.
pub open spec fn build_switch_labels(cs: Seq<NodeV>, i: int) -> Result<Seq<SwitchLabelV>, IdlError>
    decreases cs.len() - i,
{
    if i < 0 || i >= cs.len() {
        Result::Ok(Seq::empty())
    } else if cs[i].rule != RuleKind::CaseLabel {
        build_switch_labels(cs, i + 1)
    } else {
        match build_switch_label(cs[i]) {
            Result::Err(e) => Result::Err(e),
            Result::Ok(l) => match build_switch_labels(cs, i + 1) {
                Result::Err(e) => Result::Err(e),
                Result::Ok(ls) => Result::Ok(seq![l] + ls),
            },
        }
    }
}

/// The position of the last element-spec child, or -1.
pub open spec fn last_element_spec(cs: Seq<NodeV>) -> int
    decreases cs.len(),
{
    if cs.len() == 0 {
        -1
    } else if cs.last().rule == RuleKind::ElementSpec {
        cs.len() - 1
    } else {
        last_element_spec(cs.drop_last())
    }
}

/// The arm one case production declares: its labels and the element of
/// its last element spec. A case without an element spec is a
/// grammar-contract violation; a label failure is reported before an
/// element failure.
pub open spec fn build_switch_case(n: NodeV) -> Result<SwitchCaseV, IdlError> {
    let j = last_element_spec(n.children);
    if j == -1 {
        Result::Err(IdlError::InternalError)
    } else {
        match build_switch_labels(n.children, 0) {
            Result::Err(e) => Result::Err(e),
            Result::Ok(ls) => match build_element_spec(n.children[j]) {
                Result::Err(e) => Result::Err(e),
                Result::Ok(es) => Result::Ok(SwitchCaseV { labels: ls, elem_spec: es }),
            },
        }
    }
}

/// The arms of a switch body from child `i` on.
pub open spec fn build_switch_cases(cs: Seq<NodeV>, i: int) -> Result<Seq<SwitchCaseV>, IdlError>
    decreases cs.len() - i,
{
    if i < 0 || i >= cs.len() {
        Result::Ok(Seq::empty())
    } else {
        match build_switch_case(cs[i]) {
            Result::Err(e) => Result::Err(e),
            Result::Ok(c) => match build_switch_cases(cs, i + 1) {
                Result::Err(e) => Result::Err(e),
                Result::Ok(rest) => Result::Ok(seq![c] + rest),
            },
        }
    }
}

/// What `last_element_spec` returns: -1 when no child is an element
/// spec, else the last position that is.
proof fn lemma_last_element_spec(cs: Seq<NodeV>)
    ensures
        -1 <= last_element_spec(cs) < cs.len(),
        last_element_spec(cs) != -1 ==> cs[last_element_spec(cs)].rule == RuleKind::ElementSpec,
        forall|k: int|
            last_element_spec(cs) < k < cs.len() ==> (#[trigger] cs[k]).rule
                != RuleKind::ElementSpec,
    decreases cs.len(),
{
    if cs.len() > 0 && cs.last().rule != RuleKind::ElementSpec {
        lemma_last_element_spec(cs.drop_last());
        assert(forall|k: int| 0 <= k < cs.len() - 1 ==> cs.drop_last()[k] == cs[k]);
    }
}

/// The element a declarator node declares for a given type.
fn read_element_decl(node: &Node, type_spec: &Box<IdlTypeSpec>) -> (r: Result<
    IdlSwitchElement,
    IdlError,
>)
    ensures
        match build_element_decl(node@, type_spec@) {
            Result::Ok(ev) => r matches Result::Ok(m) && m@ == ev,
            Result::Err(e) => r == Result::<IdlSwitchElement, IdlError>::Err(e),
        },
{
    match read_member_decl(node, type_spec) {
        Result::Err(e) => Result::Err(e),
        Result::Ok(m) => Result::Ok(IdlSwitchElement { id: m.id, type_spec: m.type_spec }),
    }
}

/// The element one element-spec production declares.
fn read_element_spec(node: &Node) -> (r: Result<IdlSwitchElement, IdlError>)
    ensures
        match build_element_spec(node@) {
            Result::Ok(ev) => r matches Result::Ok(m) && m@ == ev,
            Result::Err(e) => r == Result::<IdlSwitchElement, IdlError>::Err(e),
        },
{
    proof {
        assert(node_views(node.children@) =~= node@.children);
    }
    if node.children.len() < 2 {
        Result::Err(IdlError::InternalError)
    } else {
        match read_type_spec_node(&node.children[0]) {
            Result::Err(e) => Result::Err(e),
            Result::Ok(t) => read_element_decl(&node.children[1], &t),
        }
    }
}

/// The labels among the children from `i` on.
fn read_switch_labels(cs: &Vec<Node>, i: usize) -> (r: Result<Vec<IdlSwitchLabel>, IdlError>)
    requires
        i <= cs.len(),
    ensures
        match build_switch_labels(node_views(cs@), i as int) {
            Result::Ok(ls) => r matches Result::Ok(v) && Seq::new(
                v@.len(),
                |k: int| switch_label_view(v@[k]),
            ) == ls,
            Result::Err(e) => r == Result::<Vec<IdlSwitchLabel>, IdlError>::Err(e),
        },
    decreases cs.len() - i,
{
    if i == cs.len() {
        let r: Vec<IdlSwitchLabel> = Vec::new();
        proof {
            assert(Seq::new(r@.len(), |k: int| switch_label_view(r@[k])) =~= Seq::<
                SwitchLabelV,
            >::empty());
        }
        Result::Ok(r)
    } else if !(cs[i].rule == RuleKind::CaseLabel) {
        read_switch_labels(cs, i + 1)
    } else {
        proof {
            assert(node_views(cs@[i as int].children@) =~= node_views(cs@)[i as int].children);
        }
        let l = if cs[i].children.len() == 0 {
            IdlSwitchLabel::Default
        } else {
            match read_const_expr_node(&cs[i].children[0]) {
                Result::Err(e) => {
                    return Result::Err(e);
                },
                Result::Ok(v) => IdlSwitchLabel::Label(v),
            }
        };
        match read_switch_labels(cs, i + 1) {
            Result::Err(e) => Result::Err(e),
            Result::Ok(mut ls) => {
                let ghost l_view = switch_label_view(l);
                let ghost ls_view = Seq::new(ls@.len(), |k: int| switch_label_view(ls@[k]));
                let mut out: Vec<IdlSwitchLabel> = Vec::new();
                out.push(l);
                out.append(&mut ls);
                proof {
                    assert(Seq::new(out@.len(), |k: int| switch_label_view(out@[k])) =~= seq![
                        l_view,
                    ] + ls_view);
                }
                Result::Ok(out)
            },
        }
    }
}

/// The position of the last element-spec child, if any.
fn find_last_element_spec(cs: &Vec<Node>) -> (r: Option<usize>)
    ensures
        match r {
            Option::Some(j) => j < cs.len() && last_element_spec(node_views(cs@)) == j as int,
            Option::None => last_element_spec(node_views(cs@)) == -1,
        },
{
    proof {
        lemma_last_element_spec(node_views(cs@));
    }
    let mut j: usize = cs.len();
    while j > 0
        invariant
            j <= cs.len(),
            forall|k: int|
                j <= k < cs.len() ==> (#[trigger] node_views(cs@)[k]).rule != RuleKind::ElementSpec,
        decreases j,
    {
        j = j - 1;
        if cs[j].rule == RuleKind::ElementSpec {
            proof {
                assert(node_views(cs@)[j as int].rule == RuleKind::ElementSpec);
                lemma_last_element_spec(node_views(cs@));
            }
            return Option::Some(j);
        }
    }
    Option::None
}

/// The arm one case production declares.
fn read_switch_case(node: &Node) -> (r: Result<IdlSwitchCase, IdlError>)
    ensures
        match build_switch_case(node@) {
            Result::Ok(cv) => r matches Result::Ok(c) && c@ == cv,
            Result::Err(e) => r == Result::<IdlSwitchCase, IdlError>::Err(e),
        },
{
    proof {
        assert(node_views(node.children@) =~= node@.children);
    }
    match find_last_element_spec(&node.children) {
        Option::None => Result::Err(IdlError::InternalError),
        Option::Some(j) => match read_switch_labels(&node.children, 0) {
            Result::Err(e) => Result::Err(e),
            Result::Ok(ls) => match read_element_spec(&node.children[j]) {
                Result::Err(e) => Result::Err(e),
                Result::Ok(es) => {
                    let c = IdlSwitchCase { labels: ls, elem_spec: Box::new(es) };
                    proof {
                        assert(c@ =~= switch_case_view(c));
                    }
                    Result::Ok(c)
                },
            },
        },
    }
}

/// The arms of a switch body from child `i` on.
fn read_switch_cases(cs: &Vec<Node>, i: usize) -> (r: Result<Vec<IdlSwitchCase>, IdlError>)
    requires
        i <= cs.len(),
    ensures
        match build_switch_cases(node_views(cs@), i as int) {
            Result::Ok(cv) => r matches Result::Ok(v) && Seq::new(
                v@.len(),
                |k: int| switch_case_view(v@[k]),
            ) == cv,
            Result::Err(e) => r == Result::<Vec<IdlSwitchCase>, IdlError>::Err(e),
        },
    decreases cs.len() - i,
{
    if i == cs.len() {
        let r: Vec<IdlSwitchCase> = Vec::new();
        proof {
            assert(Seq::new(r@.len(), |k: int| switch_case_view(r@[k])) =~= Seq::<
                SwitchCaseV,
            >::empty());
        }
        Result::Ok(r)
    } else {
        match read_switch_case(&cs[i]) {
            Result::Err(e) => Result::Err(e),
            Result::Ok(c) => match read_switch_cases(cs, i + 1) {
                Result::Err(e) => Result::Err(e),
                Result::Ok(mut rest) => {
                    let ghost c_view = switch_case_view(c);
                    let ghost rest_view = Seq::new(rest@.len(), |k: int| switch_case_view(rest@[k]));
                    let mut out: Vec<IdlSwitchCase> = Vec::new();
                    out.push(c);
                    out.append(&mut rest);
                    proof {
                        assert(Seq::new(out@.len(), |k: int| switch_case_view(out@[k])) =~= seq![
                            c_view,
                        ] + rest_view);
                    }
                    Result::Ok(out)
                },
            },
        }
    }
}

// ---------------------------------------------------------------------
// The builder pass: one depth-first walk that fills the symbol table.
// ---------------------------------------------------------------------

/// The enumerator names among the children from `i` on.
pub open spec fn idents_from(cs: Seq<NodeV>, i: int) -> Result<Seq<Seq<char>>, IdlError>
    decreases cs.len() - i,
{
    if i < 0 || i >= cs.len() {
        Result::Ok(Seq::empty())
    } else {
        match ident_of(cs[i]) {
            Result::Err(e) => Result::Err(e),
            Result::Ok(id) => match idents_from(cs, i + 1) {
                Result::Err(e) => Result::Err(e),
                Result::Ok(ids) => Result::Ok(seq![id] + ids),
            },
        }
    }
}

/// The alias declaration a declarator node makes for a given type: its
/// key and a type declaration, with array dimensions around the type
/// where the declarator has them.
pub open spec fn build_alias_decl(n: NodeV, t: TypeSpecV) -> Result<
    (Seq<char>, TypeDclKindV),
    IdlError,
> {
    if n.children.len() == 0 {
        Result::Err(IdlError::InternalError)
    } else {
        let decl = n.children[0];
        if decl.rule == RuleKind::SimpleDeclarator {
            if decl.children.len() == 0 {
                Result::Err(IdlError::InternalError)
            } else {
                match ident_of(decl.children[0]) {
                    Result::Err(e) => Result::Err(e),
                    Result::Ok(id) => Result::Ok((id, TypeDclKindV::TypeDcl(id, t))),
                }
            }
        } else if decl.rule == RuleKind::ArrayDeclarator {
            if decl.children.len() == 0 {
                Result::Err(IdlError::InternalError)
            } else {
                match ident_of(decl.children[0]) {
                    Result::Err(e) => Result::Err(e),
                    Result::Ok(id) => match build_array_sizes(decl.children, 1) {
                        Result::Err(e) => Result::Err(e),
                        Result::Ok(sizes) => Result::Ok(
                            (
                                id,
                                TypeDclKindV::TypeDcl(
                                    id,
                                    TypeSpecV::ArrayType(Box::new(t), sizes),
                                ),
                            ),
                        ),
                    },
                }
            }
        } else {
            Result::Err(IdlError::InternalError)
        }
    }
}

/// The declarations the declarator children from `i` on make for a
/// given type; a failed declarator declares nothing and the walk goes
/// on.
pub open spec fn process_declarators_spec(
    m: ModuleV,
    scope: Seq<Seq<char>>,
    cs: Seq<NodeV>,
    i: int,
    t: TypeSpecV,
) -> ModuleV
    decreases cs.len() - i,
{
    if i < 0 || i >= cs.len() {
        m
    } else {
        match build_alias_decl(cs[i], t) {
            Result::Err(_e) => process_declarators_spec(m, scope, cs, i + 1, t),
            Result::Ok(pair) => process_declarators_spec(
                declare_type_at(m, scope, 0, scope.len() as nat, pair.0, pair.1),
                scope,
                cs,
                i + 1,
                t,
            ),
        }
    }
}

/// What one definition node does to the symbol table, and the failure it
/// reports.
///
/// A module walks its body in its own scope and reports nothing, even
/// when parts of the body failed. A struct, union, enum or constant
/// declares itself in the current scope, the first declaration of a name
/// winning; a type declarator declares one alias per declarator. A
/// directive node is recognized by its first two tokens; a key-list
/// directive marks its struct and keys transactionally and is the only
/// definition that reports a failure of its own. Any other production is
/// walked through, its children's failures ignored.
pub open spec fn process_spec(m: ModuleV, scope: Seq<Seq<char>>, n: NodeV) -> (
    ModuleV,
    Result<(), crate::IdlErrV>,
)
    decreases n, 0int,
{
    let cs = n.children;
    if n.rule == RuleKind::ModuleDcl {
        if cs.len() == 0 {
            (m, Result::Err(crate::IdlErrV::InternalError))
        } else {
            let scope2 = scope.push(cs[0].text);
            let m1 = ensure_path_at(m, scope2, 0, scope2.len() as nat);
            (process_children_spec(m1, scope2, cs, 1), Result::Ok(()))
        }
    } else if n.rule == RuleKind::StructDef {
        if cs.len() == 0 {
            (m, Result::Err(crate::IdlErrV::InternalError))
        } else {
            match build_struct_members(cs, 1) {
                Result::Err(e) => (m, Result::Err(e@)),
                Result::Ok(ms) => (
                    declare_type_at(
                        m,
                        scope,
                        0,
                        scope.len() as nat,
                        cs[0].text,
                        TypeDclKindV::StructDcl(cs[0].text, ms, false),
                    ),
                    Result::Ok(()),
                ),
            }
        }
    } else if n.rule == RuleKind::UnionDef {
        if cs.len() == 0 {
            (m, Result::Err(crate::IdlErrV::InternalError))
        } else {
            match ident_of(cs[0]) {
                Result::Err(e) => (m, Result::Err(e@)),
                Result::Ok(id) => if cs.len() == 1 || cs[1].children.len() == 0 {
                    (m, Result::Err(crate::IdlErrV::InternalError))
                } else {
                    match build_type_spec(cs[1].children[0]) {
                        Result::Err(e) => (m, Result::Err(e@)),
                        Result::Ok(t) => if cs.len() == 2 {
                            (m, Result::Err(crate::IdlErrV::InternalError))
                        } else {
                            match build_switch_cases(cs[2].children, 0) {
                                Result::Err(e) => (m, Result::Err(e@)),
                                Result::Ok(cases) => (
                                    declare_type_at(
                                        m,
                                        scope,
                                        0,
                                        scope.len() as nat,
                                        id,
                                        TypeDclKindV::UnionDcl(id, t, cases),
                                    ),
                                    Result::Ok(()),
                                ),
                            }
                        },
                    }
                },
            }
        }
    } else if n.rule == RuleKind::TypeDeclarator {
        if cs.len() == 0 {
            (m, Result::Err(crate::IdlErrV::InternalError))
        } else {
            match build_type_spec(cs[0]) {
                Result::Err(e) => (m, Result::Err(e@)),
                Result::Ok(t) => if cs.len() == 1 {
                    (m, Result::Err(crate::IdlErrV::InternalError))
                } else {
                    (process_declarators_spec(m, scope, cs[1].children, 0, t), Result::Ok(()))
                },
            }
        }
    } else if n.rule == RuleKind::EnumDcl {
        if cs.len() == 0 {
            (m, Result::Err(crate::IdlErrV::InternalError))
        } else {
            match idents_from(cs, 1) {
                Result::Err(e) => (m, Result::Err(e@)),
                Result::Ok(variants) => (
                    declare_type_at(
                        m,
                        scope,
                        0,
                        scope.len() as nat,
                        cs[0].text,
                        TypeDclKindV::EnumDcl(cs[0].text, variants),
                    ),
                    Result::Ok(()),
                ),
            }
        }
    } else if n.rule == RuleKind::ConstDcl {
        if cs.len() == 0 {
            (m, Result::Err(crate::IdlErrV::InternalError))
        } else {
            match build_type_spec(cs[0]) {
                Result::Err(e) => (m, Result::Err(e@)),
                Result::Ok(t) => if cs.len() == 1 {
                    (m, Result::Err(crate::IdlErrV::InternalError))
                } else {
                    match ident_of(cs[1]) {
                        Result::Err(e) => (m, Result::Err(e@)),
                        Result::Ok(id) => if cs.len() == 2 {
                            (m, Result::Err(crate::IdlErrV::InternalError))
                        } else {
                            match build_const_expr(cs[2]) {
                                Result::Err(e) => (m, Result::Err(e@)),
                                Result::Ok(v) => (
                                    declare_const_at(
                                        m,
                                        scope,
                                        0,
                                        scope.len() as nat,
                                        id,
                                        ConstDclV { id, typedcl: t, value: v },
                                    ),
                                    Result::Ok(()),
                                ),
                            }
                        },
                    }
                },
            }
        }
    } else if n.rule == RuleKind::OtherDirective {
        let toks = crate::text::spec_split_spaces(crate::text::spec_trim_end(n.text));
        if toks.len() >= 3 && toks[0] == "#pragma"@ && toks[1] == "keylist"@ {
            let m2 = keylist_at(m, scope, 0, scope.len() as nat, toks[2], toks.skip(3));
            if keylist_ok(m, scope, 0, toks[2], toks.skip(3)) {
                (m2, Result::Ok(()))
            } else {
                (
                    m2,
                    Result::Err(
                        crate::IdlErrV::KeyNotFound(crate::text::spec_join_comma(toks.skip(3))),
                    ),
                )
            }
        } else {
            (m, Result::Ok(()))
        }
    } else {
        (process_children_spec(m, scope, cs, 0), Result::Ok(()))
    }
}

/// The children from `i` on walked in order, each one's failure
/// ignored.
pub open spec fn process_children_spec(
    m: ModuleV,
    scope: Seq<Seq<char>>,
    cs: Seq<NodeV>,
    i: int,
) -> ModuleV
    decreases cs, cs.len() - i,
{
    if i < 0 || i >= cs.len() {
        m
    } else {
        process_children_spec(process_spec(m, scope, cs[i]).0, scope, cs, i + 1)
    }
}

/// The builder's state: the root of the symbol table it fills.
#[derive(Debug)]
pub struct Context {
    pub root_module: IdlModule,
}

impl Context {
    /// A builder with an empty root scope.
    pub fn new(_config: &Configuration) -> (r: Context)
        ensures
            r.root_module@ == new_module_v(Option::None, 0),
    {
        Context { root_module: IdlModule::new(Option::None, 0) }
    }

    /// The type expression a node describes.
    pub fn read_type_spec(&self, _scope: &Vec<String>, node: &Node) -> (r: Result<
        Box<IdlTypeSpec>,
        IdlError,
    >)
        ensures
            match build_type_spec(node@) {
                Result::Ok(tv) => r matches Result::Ok(v) && v@ == tv,
                Result::Err(e) => r == Result::<Box<IdlTypeSpec>, IdlError>::Err(e),
            },
    {
        read_type_spec_node(node)
    }

    /// The member a declarator node declares for a given type.
    pub fn read_struct_member_declarator(
        &self,
        _scope: &Vec<String>,
        node: &Node,
        type_spec: &Box<IdlTypeSpec>,
    ) -> (r: Result<IdlStructMember, IdlError>)
        ensures
            match build_member_decl(node@, type_spec@) {
                Result::Ok(mv) => r matches Result::Ok(m) && m@ == mv,
                Result::Err(e) => r == Result::<IdlStructMember, IdlError>::Err(e),
            },
    {
        read_member_decl(node, type_spec)
    }

    /// The element a declarator node declares for a given type.
    pub fn read_switch_element_declarator(
        &self,
        _scope: &Vec<String>,
        node: &Node,
        type_spec: &Box<IdlTypeSpec>,
    ) -> (r: Result<IdlSwitchElement, IdlError>)
        ensures
            match build_element_decl(node@, type_spec@) {
                Result::Ok(ev) => r matches Result::Ok(m) && m@ == ev,
                Result::Err(e) => r == Result::<IdlSwitchElement, IdlError>::Err(e),
            },
    {
        read_element_decl(node, type_spec)
    }

    /// Declare the alias one declarator makes for a given type in the
    /// current scope.
    pub fn process_declarator(
        &mut self,
        scope: &Vec<String>,
        node: &Node,
        type_spec: &Box<IdlTypeSpec>,
    ) -> (r: Result<(), IdlError>)
        ensures
            match build_alias_decl(node@, type_spec@) {
                Result::Err(e) => final(self).root_module@ == old(self).root_module@ && r
                    == Result::<(), IdlError>::Err(e),
                Result::Ok(pair) => r is Ok && final(self).root_module@ == declare_type_at(
                    old(self).root_module@,
                    scope.deep_view(),
                    0,
                    scope@.len() as nat,
                    pair.0,
                    pair.1,
                ),
            },
    {
        proof {
            assert(node_views(node.children@) =~= node@.children);
        }
        if node.children.len() == 0 {
            return Result::Err(IdlError::InternalError);
        }
        let decl = &node.children[0];
        proof {
            assert(node_views(decl.children@) =~= decl@.children);
        }
        match decl.rule {
            RuleKind::SimpleDeclarator => {
                if decl.children.len() == 0 {
                    Result::Err(IdlError::InternalError)
                } else {
                    match read_identifier(&decl.children[0]) {
                        Result::Err(e) => Result::Err(e),
                        Result::Ok(id) => {
                            let dcl = IdlTypeDcl(
                                IdlTypeDclKind::TypeDcl(
                                    id.clone(),
                                    Box::new(type_spec.deep_clone()),
                                ),
                            );
                            self.root_module.declare_type(scope, id, dcl);
                            Result::Ok(())
                        },
                    }
                }
            },
            RuleKind::ArrayDeclarator => {
                if decl.children.len() == 0 {
                    Result::Err(IdlError::InternalError)
                } else {
                    match read_identifier(&decl.children[0]) {
                        Result::Err(e) => Result::Err(e),
                        Result::Ok(id) => match read_array_sizes(&decl.children, 1) {
                            Result::Err(e) => Result::Err(e),
                            Result::Ok(sizes) => {
                                let dcl = IdlTypeDcl(
                                    IdlTypeDclKind::TypeDcl(
                                        id.clone(),
                                        Box::new(
                                            IdlTypeSpec::ArrayType(
                                                Box::new(type_spec.deep_clone()),
                                                sizes,
                                            ),
                                        ),
                                    ),
                                );
                                self.root_module.declare_type(scope, id, dcl);
                                Result::Ok(())
                            },
                        },
                    }
                }
            },
            _ => Result::Err(IdlError::InternalError),
        }
    }

    /// Walk one definition node, filling the symbol table; the scope is
    /// left as it was found.
    pub fn process(&mut self, scope: &mut Vec<String>, node: &Node) -> (r: Result<(), IdlError>)
        ensures
            ({
                let s = process_spec(old(self).root_module@, old(scope).deep_view(), node@);
                &&& final(self).root_module@ == s.0
                &&& crate::unit_res_matches(r, s.1)
                &&& final(scope)@ == old(scope)@
            }),
        decreases node, 0int,
    {
        proof {
            assert(node_views(node.children@) =~= node@.children);
        }
        let cs = &node.children;
        match node.rule {
            RuleKind::ModuleDcl => {
                if cs.len() == 0 {
                    return Result::Err(IdlError::InternalError);
                }
                scope.push(cs[0].text.clone());
                proof {
                    assert(scope.deep_view() =~= old(scope).deep_view().push(node@.children[0].text));
                }
                self.root_module.ensure_module_path(scope);
                self.process_children(scope, cs, 1);
                let _ = scope.pop();
                proof {
                    assert(scope@ =~= old(scope)@);
                }
                Result::Ok(())
            },
            RuleKind::StructDef => {
                if cs.len() == 0 {
                    return Result::Err(IdlError::InternalError);
                }
                let id = cs[0].text.clone();
                match read_struct_members(cs, 1) {
                    Result::Err(e) => Result::Err(e),
                    Result::Ok(members) => {
                        let dcl = IdlTypeDcl(
                            IdlTypeDclKind::StructDcl(id.clone(), members, false),
                        );
                        self.root_module.declare_type(scope, id, dcl);
                        Result::Ok(())
                    },
                }
            },
            RuleKind::UnionDef => {
                if cs.len() == 0 {
                    return Result::Err(IdlError::InternalError);
                }
                match read_identifier(&cs[0]) {
                    Result::Err(e) => Result::Err(e),
                    Result::Ok(id) => {
                        if cs.len() == 1 || cs[1].children.len() == 0 {
                            return Result::Err(IdlError::InternalError);
                        }
                        proof {
                            assert(node_views(cs@[1].children@) =~= node@.children[1].children);
                        }
                        match read_type_spec_node(&cs[1].children[0]) {
                            Result::Err(e) => Result::Err(e),
                            Result::Ok(t) => {
                                if cs.len() == 2 {
                                    return Result::Err(IdlError::InternalError);
                                }
                                proof {
                                    assert(node_views(cs@[2].children@) =~= node@.children[2].children);
                                }
                                match read_switch_cases(&cs[2].children, 0) {
                                    Result::Err(e) => Result::Err(e),
                                    Result::Ok(cases) => {
                                        let dcl = IdlTypeDcl(
                                            IdlTypeDclKind::UnionDcl(id.clone(), t, cases),
                                        );
                                        self.root_module.declare_type(scope, id, dcl);
                                        Result::Ok(())
                                    },
                                }
                            },
                        }
                    },
                }
            },
            RuleKind::TypeDeclarator => {
                if cs.len() == 0 {
                    return Result::Err(IdlError::InternalError);
                }
                match read_type_spec_node(&cs[0]) {
                    Result::Err(e) => Result::Err(e),
                    Result::Ok(t) => {
                        if cs.len() == 1 {
                            return Result::Err(IdlError::InternalError);
                        }
                        proof {
                            assert(node_views(cs@[1].children@) =~= node@.children[1].children);
                        }
                        self.process_declarators(scope, &cs[1].children, 0, &t);
                        Result::Ok(())
                    },
                }
            },
            RuleKind::EnumDcl => {
                if cs.len() == 0 {
                    return Result::Err(IdlError::InternalError);
                }
                let id = cs[0].text.clone();
                match read_idents_from(cs, 1) {
                    Result::Err(e) => Result::Err(e),
                    Result::Ok(variants) => {
                        let dcl = IdlTypeDcl(IdlTypeDclKind::EnumDcl(id.clone(), variants));
                        self.root_module.declare_type(scope, id, dcl);
                        Result::Ok(())
                    },
                }
            },
            RuleKind::ConstDcl => {
                if cs.len() == 0 {
                    return Result::Err(IdlError::InternalError);
                }
                match read_type_spec_node(&cs[0]) {
                    Result::Err(e) => Result::Err(e),
                    Result::Ok(t) => {
                        if cs.len() == 1 {
                            return Result::Err(IdlError::InternalError);
                        }
                        match read_identifier(&cs[1]) {
                            Result::Err(e) => Result::Err(e),
                            Result::Ok(id) => {
                                if cs.len() == 2 {
                                    return Result::Err(IdlError::InternalError);
                                }
                                match read_const_expr_node(&cs[2]) {
                                    Result::Err(e) => Result::Err(e),
                                    Result::Ok(v) => {
                                        let dcl = IdlConstDcl {
                                            id: id.clone(),
                                            typedcl: t,
                                            value: v,
                                        };
                                        self.root_module.declare_const(scope, id, dcl);
                                        Result::Ok(())
                                    },
                                }
                            },
                        }
                    },
                }
            },
            RuleKind::OtherDirective => {
                let trimmed = trim_end_blanks(node.text.as_str());
                let tokens = split_spaces(trimmed);
                if tokens.len() >= 3 && str_eq(tokens[0].as_str(), "#pragma") && str_eq(
                    tokens[1].as_str(),
                    "keylist",
                ) {
                    let keys = clone_strings_from(&tokens, 3);
                    proof {
                        assert(keys.deep_view() =~= tokens.deep_view().skip(3));
                    }
                    self.root_module.apply_keylist(scope, tokens[2].as_str(), &keys)
                } else {
                    Result::Ok(())
                }
            },
            _ => {
                self.process_children(scope, cs, 0);
                Result::Ok(())
            },
        }
    }

    /// Walk the children from `i` on, ignoring their failures.
    fn process_children(&mut self, scope: &mut Vec<String>, cs: &Vec<Node>, i: usize)
        requires
            i <= cs.len(),
        ensures
            final(self).root_module@ == process_children_spec(
                old(self).root_module@,
                old(scope).deep_view(),
                node_views(cs@),
                i as int,
            ),
            final(scope)@ == old(scope)@,
        decreases cs, cs.len() - i,
    {
        if i < cs.len() {
            let _ = self.process(scope, &cs[i]);
            self.process_children(scope, cs, i + 1);
        }
    }

    /// Declare the aliases of the declarator children from `i` on; a
    /// failed declarator declares nothing.
    fn process_declarators(
        &mut self,
        scope: &Vec<String>,
        cs: &Vec<Node>,
        i: usize,
        type_spec: &Box<IdlTypeSpec>,
    )
        requires
            i <= cs.len(),
        ensures
            final(self).root_module@ == process_declarators_spec(
                old(self).root_module@,
                scope.deep_view(),
                node_views(cs@),
                i as int,
                type_spec@,
            ),
        decreases cs.len() - i,
    {
        if i < cs.len() {
            let _ = self.process_declarator(scope, &cs[i], type_spec);
            self.process_declarators(scope, cs, i + 1, type_spec);
        }
    }
}

/// A copy of the names from position `i` on; a string's copy is the
/// same string to the verifier.
fn clone_strings_from(v: &Vec<String>, i: usize) -> (r: Vec<String>)
    requires
        i <= v.len(),
    ensures
        r@ == v@.skip(i as int),
    decreases v.len() - i,
{
    if i == v.len() {
        let r: Vec<String> = Vec::new();
        proof {
            assert(r@ =~= v@.skip(i as int));
        }
        r
    } else {
        let head = v[i].clone();
        let mut rest = clone_strings_from(v, i + 1);
        let mut out: Vec<String> = Vec::new();
        out.push(head);
        out.append(&mut rest);
        proof {
            assert(out@ =~= v@.skip(i as int));
        }
        out
    }
}

/// The enumerator names among the children from `i` on.
fn read_idents_from(cs: &Vec<Node>, i: usize) -> (r: Result<Vec<String>, IdlError>)
    requires
        i <= cs.len(),
    ensures
        match idents_from(node_views(cs@), i as int) {
            Result::Ok(ids) => r matches Result::Ok(v) && v.deep_view() == ids,
            Result::Err(e) => r == Result::<Vec<String>, IdlError>::Err(e),
        },
    decreases cs.len() - i,
{
    if i == cs.len() {
        let r: Vec<String> = Vec::new();
        proof {
            assert(r.deep_view() =~= Seq::<Seq<char>>::empty());
        }
        Result::Ok(r)
    } else {
        match read_identifier(&cs[i]) {
            Result::Err(e) => Result::Err(e),
            Result::Ok(id) => match read_idents_from(cs, i + 1) {
                Result::Err(e) => Result::Err(e),
                Result::Ok(mut ids) => {
                    let ghost id_view = id@;
                    let ghost ids_view = ids.deep_view();
                    let mut out: Vec<String> = Vec::new();
                    out.push(id);
                    out.append(&mut ids);
                    proof {
                        assert(out.deep_view() =~= seq![id_view] + ids_view);
                    }
                    Result::Ok(out)
                },
            },
        }
    }
}

/// The scoped name a node describes.
fn read_scoped_name(node: &Node) -> (r: Result<IdlScopedName, IdlError>)
    ensures
        match build_scoped_name(node@) {
            Result::Ok(sv) => r matches Result::Ok(v) && v@ == sv,
            Result::Err(e) => r == Result::<IdlScopedName, IdlError>::Err(e),
        },
{
    proof {
        assert(node_views(node.children@) =~= node@.children);
    }
    match read_scoped_parts(&node.children, 0) {
        Result::Err(e) => Result::Err(e),
        Result::Ok(parts) => {
            let n = node.text.unicode_len();
            let abs = n >= 2 && node.text.get_char(0) == ':' && node.text.get_char(1) == ':';
            let r = IdlScopedName(parts, abs);
            proof {
                assert(r@ =~= ScopedNameV {
                    parts: r.0.deep_view(),
                    abs: starts_with_colons(node@.text),
                });
            }
            Result::Ok(r)
        },
    }
}

} // verus!
