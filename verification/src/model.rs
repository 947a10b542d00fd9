//! The mathematical model of the type system: for every executable AST
//! type a mirror built from `Seq`, `Option` and `bool`, and a view
//! function mapping the executable value to it. All contracts in this
//! crate speak about these views, so that two values that hold the same
//! names and shapes are the same model regardless of how their strings
//! were allocated.
use crate::ast::{
    BinaryOp, IdlConstDcl, IdlModule, IdlScopedName, IdlStructMember, IdlSwitchCase,
    IdlSwitchElement, IdlSwitchLabel, IdlTypeDcl, IdlTypeDclKind, IdlTypeSpec, IdlValueExpr,
    UnaryOp,
};
use vstd::prelude::*;

verus! {

/// Model of a scoped name: its path components and whether the written
/// name was absolute (started with a scope separator).
#[verifier::ext_equal]
pub struct ScopedNameV {
    pub parts: Seq<Seq<char>>,
    pub abs: bool,
}

/// Model of a constant expression.
#[verifier::ext_equal]
pub enum ValueExprV {
    NoValue,
    DecLiteral(Seq<char>),
    HexLiteral(Seq<char>),
    OctLiteral(Seq<char>),
    CharLiteral(Seq<char>),
    WideCharLiteral(Seq<char>),
    StringLiteral(Seq<char>),
    WideStringLiteral(Seq<char>),
    BooleanLiteral(bool),
    FloatLiteral(Option<Seq<char>>, Option<Seq<char>>, Option<Seq<char>>, Option<Seq<char>>),
    UnaryOp(UnaryOp, Box<ValueExprV>),
    BinaryOp(BinaryOp, Box<ValueExprV>),
    Expr(Box<ValueExprV>, Box<ValueExprV>),
    Brace(Box<ValueExprV>),
    ScopedName(ScopedNameV),
}

/// Model of a type expression.
#[verifier::ext_equal]
pub enum TypeSpecV {
    NoType,
    ArrayType(Box<TypeSpecV>, Seq<ValueExprV>),
    SequenceType(Box<TypeSpecV>, Option<ValueExprV>),
    StringType(Option<ValueExprV>),
    WideStringType(Option<ValueExprV>),
    F32Type,
    F64Type,
    F128Type,
    I16Type,
    I32Type,
    I64Type,
    U16Type,
    U32Type,
    U64Type,
    CharType,
    WideCharType,
    BooleanType,
    OctetType,
    ScopedName(ScopedNameV),
}

/// Model of one struct member.
#[verifier::ext_equal]
pub struct StructMemberV {
    pub id: Seq<char>,
    pub type_spec: TypeSpecV,
    pub is_key: bool,
}

/// Model of one union arm's element.
#[verifier::ext_equal]
pub struct SwitchElementV {
    pub id: Seq<char>,
    pub type_spec: TypeSpecV,
}

/// Model of one union case label.
#[verifier::ext_equal]
pub enum SwitchLabelV {
    Label(ValueExprV),
    Default,
}

/// Model of one union arm.
#[verifier::ext_equal]
pub struct SwitchCaseV {
    pub labels: Seq<SwitchLabelV>,
    pub elem_spec: SwitchElementV,
}

/// Model of one type declaration.
#[verifier::ext_equal]
pub enum TypeDclKindV {
    NoDecl,
    TypeDcl(Seq<char>, TypeSpecV),
    StructDcl(Seq<char>, Seq<StructMemberV>, bool),
    UnionDcl(Seq<char>, TypeSpecV, Seq<SwitchCaseV>),
    EnumDcl(Seq<char>, Seq<Seq<char>>),
}

/// Model of one constant declaration.
#[verifier::ext_equal]
pub struct ConstDclV {
    pub id: Seq<char>,
    pub typedcl: TypeSpecV,
    pub value: ValueExprV,
}

/// Model of one scope of the symbol table: named submodules, named type
/// declarations and named constants, each in declaration order.
#[verifier::ext_equal]
pub struct ModuleV {
    pub id: Option<Seq<char>>,
    pub level: nat,
    pub modules: Seq<(Seq<char>, ModuleV)>,
    pub types: Seq<(Seq<char>, TypeDclKindV)>,
    pub constants: Seq<(Seq<char>, ConstDclV)>,
    pub keys: Seq<(Seq<char>, Seq<Seq<char>>)>,
}

/// The model of a scope with nothing in it and no name.
pub open spec fn empty_module_v() -> ModuleV {
    ModuleV {
        id: Option::None,
        level: 0,
        modules: Seq::empty(),
        types: Seq::empty(),
        constants: Seq::empty(),
        keys: Seq::empty(),
    }
}

/// The model of a freshly created scope.
pub open spec fn new_module_v(id: Option<Seq<char>>, level: nat) -> ModuleV {
    ModuleV {
        id,
        level,
        modules: Seq::empty(),
        types: Seq::empty(),
        constants: Seq::empty(),
        keys: Seq::empty(),
    }
}

pub open spec fn scoped_name_view(n: IdlScopedName) -> ScopedNameV {
    ScopedNameV { parts: n.0.deep_view(), abs: n.1 }
}

pub open spec fn value_expr_view(e: IdlValueExpr) -> ValueExprV
    decreases e,
{
    match e {
        IdlValueExpr::NoValue => ValueExprV::NoValue,
        IdlValueExpr::DecLiteral(s) => ValueExprV::DecLiteral(s@),
        IdlValueExpr::HexLiteral(s) => ValueExprV::HexLiteral(s@),
        IdlValueExpr::OctLiteral(s) => ValueExprV::OctLiteral(s@),
        IdlValueExpr::CharLiteral(s) => ValueExprV::CharLiteral(s@),
        IdlValueExpr::WideCharLiteral(s) => ValueExprV::WideCharLiteral(s@),
        IdlValueExpr::StringLiteral(s) => ValueExprV::StringLiteral(s@),
        IdlValueExpr::WideStringLiteral(s) => ValueExprV::WideStringLiteral(s@),
        IdlValueExpr::BooleanLiteral(b) => ValueExprV::BooleanLiteral(b),
        IdlValueExpr::FloatLiteral(i, f, e2, s) => ValueExprV::FloatLiteral(
            i.deep_view(),
            f.deep_view(),
            e2.deep_view(),
            s.deep_view(),
        ),
        IdlValueExpr::UnaryOp(op, e2) => ValueExprV::UnaryOp(op, Box::new(value_expr_view(*e2))),
        IdlValueExpr::BinaryOp(op, e2) => ValueExprV::BinaryOp(op, Box::new(value_expr_view(*e2))),
        IdlValueExpr::Expr(a, b) => ValueExprV::Expr(
            Box::new(value_expr_view(*a)),
            Box::new(value_expr_view(*b)),
        ),
        IdlValueExpr::Brace(a) => ValueExprV::Brace(Box::new(value_expr_view(*a))),
        IdlValueExpr::ScopedName(n) => ValueExprV::ScopedName(scoped_name_view(n)),
    }
}

pub open spec fn value_exprs_view(s: Seq<IdlValueExpr>) -> Seq<ValueExprV> {
    Seq::new(s.len(), |i: int| value_expr_view(s[i]))
}

pub open spec fn opt_value_expr_view(o: Option<Box<IdlValueExpr>>) -> Option<ValueExprV> {
    match o {
        Option::Some(e) => Option::Some(value_expr_view(*e)),
        Option::None => Option::None,
    }
}

pub open spec fn type_spec_view(t: IdlTypeSpec) -> TypeSpecV
    decreases t,
{
    match t {
        IdlTypeSpec::NoType => TypeSpecV::NoType,
        IdlTypeSpec::ArrayType(e, dims) => TypeSpecV::ArrayType(
            Box::new(type_spec_view(*e)),
            value_exprs_view(dims@),
        ),
        IdlTypeSpec::SequenceType(e, bound) => TypeSpecV::SequenceType(
            Box::new(type_spec_view(*e)),
            opt_value_expr_view(bound),
        ),
        IdlTypeSpec::StringType(bound) => TypeSpecV::StringType(opt_value_expr_view(bound)),
        IdlTypeSpec::WideStringType(bound) => TypeSpecV::WideStringType(opt_value_expr_view(bound)),
        IdlTypeSpec::F32Type => TypeSpecV::F32Type,
        IdlTypeSpec::F64Type => TypeSpecV::F64Type,
        IdlTypeSpec::F128Type => TypeSpecV::F128Type,
        IdlTypeSpec::I16Type => TypeSpecV::I16Type,
        IdlTypeSpec::I32Type => TypeSpecV::I32Type,
        IdlTypeSpec::I64Type => TypeSpecV::I64Type,
        IdlTypeSpec::U16Type => TypeSpecV::U16Type,
        IdlTypeSpec::U32Type => TypeSpecV::U32Type,
        IdlTypeSpec::U64Type => TypeSpecV::U64Type,
        IdlTypeSpec::CharType => TypeSpecV::CharType,
        IdlTypeSpec::WideCharType => TypeSpecV::WideCharType,
        IdlTypeSpec::BooleanType => TypeSpecV::BooleanType,
        IdlTypeSpec::OctetType => TypeSpecV::OctetType,
        IdlTypeSpec::ScopedName(n) => TypeSpecV::ScopedName(scoped_name_view(n)),
    }
}

pub open spec fn struct_member_view(m: IdlStructMember) -> StructMemberV {
    StructMemberV { id: m.id@, type_spec: type_spec_view(*m.type_spec), is_key: m.is_key }
}

pub open spec fn struct_members_view(s: Seq<IdlStructMember>) -> Seq<StructMemberV> {
    Seq::new(s.len(), |i: int| struct_member_view(s[i]))
}

pub open spec fn switch_element_view(e: IdlSwitchElement) -> SwitchElementV {
    SwitchElementV { id: e.id@, type_spec: type_spec_view(*e.type_spec) }
}

pub open spec fn switch_label_view(l: IdlSwitchLabel) -> SwitchLabelV {
    match l {
        IdlSwitchLabel::Label(e) => SwitchLabelV::Label(value_expr_view(*e)),
        IdlSwitchLabel::Default => SwitchLabelV::Default,
    }
}

pub open spec fn switch_case_view(c: IdlSwitchCase) -> SwitchCaseV {
    SwitchCaseV {
        labels: Seq::new(c.labels@.len(), |i: int| switch_label_view(c.labels@[i])),
        elem_spec: switch_element_view(*c.elem_spec),
    }
}

pub open spec fn switch_cases_view(s: Seq<IdlSwitchCase>) -> Seq<SwitchCaseV> {
    Seq::new(s.len(), |i: int| switch_case_view(s[i]))
}

pub open spec fn type_dcl_kind_view(k: IdlTypeDclKind) -> TypeDclKindV {
    match k {
        IdlTypeDclKind::NoDecl => TypeDclKindV::NoDecl,
        IdlTypeDclKind::TypeDcl(id, t) => TypeDclKindV::TypeDcl(id@, type_spec_view(*t)),
        IdlTypeDclKind::StructDcl(id, members, is_key) => TypeDclKindV::StructDcl(
            id@,
            struct_members_view(members@),
            is_key,
        ),
        IdlTypeDclKind::UnionDcl(id, t, cases) => TypeDclKindV::UnionDcl(
            id@,
            type_spec_view(*t),
            switch_cases_view(cases@),
        ),
        IdlTypeDclKind::EnumDcl(id, variants) => TypeDclKindV::EnumDcl(id@, variants.deep_view()),
    }
}

pub open spec fn const_dcl_view(c: IdlConstDcl) -> ConstDclV {
    ConstDclV {
        id: c.id@,
        typedcl: type_spec_view(*c.typedcl),
        value: value_expr_view(*c.value),
    }
}

pub open spec fn module_view(m: IdlModule) -> ModuleV
    decreases m,
{
    ModuleV {
        id: m.id.deep_view(),
        level: m.level as nat,
        modules: Seq::new(
            m.modules@.len(),
            |i: int|
                if 0 <= i < m.modules@.len() {
                    (m.modules@[i].0@, module_view(m.modules@[i].1))
                } else {
                    (Seq::empty(), empty_module_v())
                },
        ),
        types: Seq::new(
            m.types@.len(),
            |i: int| (m.types@[i].0@, type_dcl_kind_view(m.types@[i].1.0)),
        ),
        constants: Seq::new(
            m.constants@.len(),
            |i: int| (m.constants@[i].0@, const_dcl_view(m.constants@[i].1)),
        ),
        keys: Seq::new(
            m.keys@.len(),
            |i: int| (m.keys@[i].0@, m.keys@[i].1.deep_view()),
        ),
    }
}

impl View for IdlScopedName {
    type V = ScopedNameV;

    open spec fn view(&self) -> ScopedNameV {
        scoped_name_view(*self)
    }
}

impl View for IdlValueExpr {
    type V = ValueExprV;

    open spec fn view(&self) -> ValueExprV {
        value_expr_view(*self)
    }
}

impl View for IdlTypeSpec {
    type V = TypeSpecV;

    open spec fn view(&self) -> TypeSpecV {
        type_spec_view(*self)
    }
}

impl View for IdlStructMember {
    type V = StructMemberV;

    open spec fn view(&self) -> StructMemberV {
        struct_member_view(*self)
    }
}

impl View for IdlSwitchElement {
    type V = SwitchElementV;

    open spec fn view(&self) -> SwitchElementV {
        switch_element_view(*self)
    }
}

impl View for IdlSwitchLabel {
    type V = SwitchLabelV;

    open spec fn view(&self) -> SwitchLabelV {
        switch_label_view(*self)
    }
}

impl View for IdlSwitchCase {
    type V = SwitchCaseV;

    open spec fn view(&self) -> SwitchCaseV {
        switch_case_view(*self)
    }
}

impl View for IdlTypeDcl {
    type V = TypeDclKindV;

    open spec fn view(&self) -> TypeDclKindV {
        type_dcl_kind_view(self.0)
    }
}

impl View for IdlConstDcl {
    type V = ConstDclV;

    open spec fn view(&self) -> ConstDclV {
        const_dcl_view(*self)
    }
}

impl View for IdlModule {
    type V = ModuleV;

    open spec fn view(&self) -> ModuleV {
        module_view(*self)
    }
}

} // verus!
