//! The type model and the symbol table: IDL type expressions, constant
//! expressions, declarations, and the tree of named scopes that resolves
//! scoped names. Rendering methods append target-language text to a
//! `String`; each is specified against a spec-level rendering of the
//! value's model.
use crate::model::{
    const_dcl_view, module_view, new_module_v, opt_value_expr_view, struct_member_view,
    struct_members_view, type_dcl_kind_view, value_expr_view, value_exprs_view, ConstDclV,
    ModuleV, ScopedNameV, StructMemberV, SwitchCaseV, SwitchElementV, SwitchLabelV, TypeDclKindV,
    TypeSpecV, ValueExprV,
};
use crate::text::{join_comma, spec_join_comma, str_eq};
use crate::IdlError;
use vstd::pervasive::VecAdditionalExecFns;
use vstd::prelude::*;
use vstd::string::StringExecFns;

verus! {

/// A unary operator of a constant expression.
#[derive(Clone, Copy, PartialEq, Eq, Structural, Debug)]
pub enum UnaryOp {
    Neg,
    Pos,
    Inverse,
}

/// A binary operator of a constant expression.
#[derive(Clone, Copy, PartialEq, Eq, Structural, Debug)]
pub enum BinaryOp {
    Add,
    Sub,
    Mul,
    Div,
    Mod,
    LShift,
    RShift,
    Or,
    Xor,
    And,
}

/// A possibly-multi-component, possibly-absolute reference to a
/// declaration in some scope.
#[derive(Debug)]
pub struct IdlScopedName(pub Vec<String>, pub bool);

/// A constant expression, kept as a tree over the exact source literals;
/// no numeric evaluation is ever performed on it.
#[derive(Debug)]
pub enum IdlValueExpr {
    NoValue,
    DecLiteral(String),
    HexLiteral(String),
    OctLiteral(String),
    CharLiteral(String),
    WideCharLiteral(String),
    StringLiteral(String),
    WideStringLiteral(String),
    BooleanLiteral(bool),
    FloatLiteral(Option<String>, Option<String>, Option<String>, Option<String>),
    UnaryOp(UnaryOp, Box<IdlValueExpr>),
    BinaryOp(BinaryOp, Box<IdlValueExpr>),
    Expr(Box<IdlValueExpr>, Box<IdlValueExpr>),
    Brace(Box<IdlValueExpr>),
    ScopedName(IdlScopedName),
}

/// An IDL type expression.
#[derive(Debug)]
pub enum IdlTypeSpec {
    NoType,
    ArrayType(Box<IdlTypeSpec>, Vec<IdlValueExpr>),
    SequenceType(Box<IdlTypeSpec>, Option<Box<IdlValueExpr>>),
    StringType(Option<Box<IdlValueExpr>>),
    WideStringType(Option<Box<IdlValueExpr>>),
    F32Type,
    F64Type,
    F128Type,
    I16Type,
    I32Type,
    I64Type,
    U16Type,
    U32Type,
    U64Type,
    CharType,
    WideCharType,
    BooleanType,
    OctetType,
    ScopedName(IdlScopedName),
}

/// One member of a struct declaration. `is_key` is set after
/// construction when a key-list directive names this member.
#[derive(Debug)]
pub struct IdlStructMember {
    pub id: String,
    pub type_spec: Box<IdlTypeSpec>,
    pub is_key: bool,
}

/// The element declared by one union arm.
#[derive(Debug)]
pub struct IdlSwitchElement {
    pub id: String,
    pub type_spec: Box<IdlTypeSpec>,
}

/// One case label of a union arm.
#[derive(Debug)]
pub enum IdlSwitchLabel {
    Label(Box<IdlValueExpr>),
    Default,
}

/// One arm of a union declaration.
#[derive(Debug)]
pub struct IdlSwitchCase {
    pub labels: Vec<IdlSwitchLabel>,
    pub elem_spec: Box<IdlSwitchElement>,
}

/// One type declaration: an alias, a struct, a union or an enum.
#[derive(Debug)]
pub enum IdlTypeDclKind {
    NoDecl,
    TypeDcl(String, Box<IdlTypeSpec>),
    StructDcl(String, Vec<IdlStructMember>, bool),
    UnionDcl(String, Box<IdlTypeSpec>, Vec<IdlSwitchCase>),
    EnumDcl(String, Vec<String>),
}

/// A named type declaration as stored in a scope.
#[derive(Debug)]
pub struct IdlTypeDcl(pub IdlTypeDclKind);

/// A constant declaration.
#[derive(Debug)]
pub struct IdlConstDcl {
    pub id: String,
    pub typedcl: Box<IdlTypeSpec>,
    pub value: Box<IdlValueExpr>,
}

/// One scope of the symbol table: an optional name (`None` only for the
/// root), its nesting level, and its named submodules, types and
/// constants in declaration order. Within one scope a name is declared
/// at most once; a second declaration is a no-op.
#[derive(Debug)]
pub struct IdlModule {
    pub id: Option<String>,
    pub level: usize,
    pub modules: Vec<(String, IdlModule)>,
    pub types: Vec<(String, IdlTypeDcl)>,
    pub constants: Vec<(String, IdlConstDcl)>,
    pub keys: Vec<(String, Vec<String>)>,
}

impl Default for IdlValueExpr {
    /// The absent value.
    fn default() -> (r: IdlValueExpr)
        ensures
            r@ == ValueExprV::NoValue,
    {
        IdlValueExpr::NoValue
    }
}

impl Default for IdlTypeSpec {
    /// The absent type.
    fn default() -> (r: IdlTypeSpec)
        ensures
            r@ == TypeSpecV::NoType,
    {
        IdlTypeSpec::NoType
    }
}

impl Default for IdlTypeDclKind {
    /// The absent declaration.
    fn default() -> (r: IdlTypeDclKind)
        ensures
            type_dcl_kind_view(r) == TypeDclKindV::NoDecl,
    {
        IdlTypeDclKind::NoDecl
    }
}

// ---------------------------------------------------------------------
// Deep copies. The derived `Clone` says nothing to the verifier, so the
// types that the builder must duplicate get explicit copies whose
// contracts state that the model is kept.
// ---------------------------------------------------------------------

/// A copy of a vector of names whose model is the same; a string's copy
/// is the same string to the verifier.
pub fn clone_string_vec(v: &Vec<String>) -> (r: Vec<String>)
    ensures
        r@ == v@,
{
    let r = v.clone();
    proof {
        assert forall|i: int| 0 <= i < r@.len() implies r@[i] == v@[i] by {
            assert(vstd::pervasive::cloned::<String>(v[i], r[i]));
        }
        assert(r@ =~= v@);
    }
    r
}

impl IdlScopedName {
    /// A copy with the same model.
    pub fn deep_clone(&self) -> (r: Self)
        ensures
            r@ == self@,
    {
        IdlScopedName(clone_string_vec(&self.0), self.1)
    }
}

impl IdlValueExpr {
    /// A copy with the same model.
    pub fn deep_clone(&self) -> (r: Self)
        ensures
            r@ == self@,
        decreases self,
    {
        match self {
            IdlValueExpr::NoValue => IdlValueExpr::NoValue,
            IdlValueExpr::DecLiteral(s) => IdlValueExpr::DecLiteral(s.clone()),
            IdlValueExpr::HexLiteral(s) => IdlValueExpr::HexLiteral(s.clone()),
            IdlValueExpr::OctLiteral(s) => IdlValueExpr::OctLiteral(s.clone()),
            IdlValueExpr::CharLiteral(s) => IdlValueExpr::CharLiteral(s.clone()),
            IdlValueExpr::WideCharLiteral(s) => IdlValueExpr::WideCharLiteral(s.clone()),
            IdlValueExpr::StringLiteral(s) => IdlValueExpr::StringLiteral(s.clone()),
            IdlValueExpr::WideStringLiteral(s) => IdlValueExpr::WideStringLiteral(s.clone()),
            IdlValueExpr::BooleanLiteral(b) => IdlValueExpr::BooleanLiteral(*b),
            IdlValueExpr::FloatLiteral(i, f, e, s) => IdlValueExpr::FloatLiteral(
                clone_opt_string(i),
                clone_opt_string(f),
                clone_opt_string(e),
                clone_opt_string(s),
            ),
            IdlValueExpr::UnaryOp(op, e) => IdlValueExpr::UnaryOp(*op, Box::new(e.deep_clone())),
            IdlValueExpr::BinaryOp(op, e) => IdlValueExpr::BinaryOp(*op, Box::new(e.deep_clone())),
            IdlValueExpr::Expr(a, b) => IdlValueExpr::Expr(
                Box::new(a.deep_clone()),
                Box::new(b.deep_clone()),
            ),
            IdlValueExpr::Brace(a) => IdlValueExpr::Brace(Box::new(a.deep_clone())),
            IdlValueExpr::ScopedName(n) => IdlValueExpr::ScopedName(n.deep_clone()),
        }
    }
}

/// A copy of an optional literal part with the same model.
fn clone_opt_string(o: &Option<String>) -> (r: Option<String>)
    ensures
        r.deep_view() == o.deep_view(),
{
    match o {
        Option::Some(s) => Option::Some(s.clone()),
        Option::None => Option::None,
    }
}

impl IdlTypeSpec {
    /// A copy with the same model.
    pub fn deep_clone(&self) -> (r: Self)
        ensures
            r@ == self@,
        decreases self,
    {
        match self {
            IdlTypeSpec::NoType => IdlTypeSpec::NoType,
            IdlTypeSpec::ArrayType(e, dims) => {
                let r = IdlTypeSpec::ArrayType(Box::new(e.deep_clone()), clone_value_vec(dims, 0));
                proof {
                    assert(r@ =~= self@);
                }
                r
            },
            IdlTypeSpec::SequenceType(e, bound) => IdlTypeSpec::SequenceType(
                Box::new(e.deep_clone()),
                clone_opt_value(bound),
            ),
            IdlTypeSpec::StringType(bound) => IdlTypeSpec::StringType(clone_opt_value(bound)),
            IdlTypeSpec::WideStringType(bound) => IdlTypeSpec::WideStringType(
                clone_opt_value(bound),
            ),
            IdlTypeSpec::F32Type => IdlTypeSpec::F32Type,
            IdlTypeSpec::F64Type => IdlTypeSpec::F64Type,
            IdlTypeSpec::F128Type => IdlTypeSpec::F128Type,
            IdlTypeSpec::I16Type => IdlTypeSpec::I16Type,
            IdlTypeSpec::I32Type => IdlTypeSpec::I32Type,
            IdlTypeSpec::I64Type => IdlTypeSpec::I64Type,
            IdlTypeSpec::U16Type => IdlTypeSpec::U16Type,
            IdlTypeSpec::U32Type => IdlTypeSpec::U32Type,
            IdlTypeSpec::U64Type => IdlTypeSpec::U64Type,
            IdlTypeSpec::CharType => IdlTypeSpec::CharType,
            IdlTypeSpec::WideCharType => IdlTypeSpec::WideCharType,
            IdlTypeSpec::BooleanType => IdlTypeSpec::BooleanType,
            IdlTypeSpec::OctetType => IdlTypeSpec::OctetType,
            IdlTypeSpec::ScopedName(n) => IdlTypeSpec::ScopedName(n.deep_clone()),
        }
    }
}

/// A copy of an optional bound expression with the same model.
fn clone_opt_value(o: &Option<Box<IdlValueExpr>>) -> (r: Option<Box<IdlValueExpr>>)
    ensures
        opt_value_expr_view(r) == opt_value_expr_view(*o),
{
    match o {
        Option::Some(e) => Option::Some(Box::new(e.deep_clone())),
        Option::None => Option::None,
    }
}

/// A copy of the dimension expressions from `i` on, with the same models.
fn clone_value_vec(v: &Vec<IdlValueExpr>, i: usize) -> (r: Vec<IdlValueExpr>)
    requires
        i <= v.len(),
    ensures
        value_exprs_view(r@) == value_exprs_view(v@.skip(i as int)),
    decreases v.len() - i,
{
    if i == v.len() {
        let r: Vec<IdlValueExpr> = Vec::new();
        proof {
            assert(value_exprs_view(r@) =~= value_exprs_view(v@.skip(i as int)));
        }
        r
    } else {
        let head = v[i].deep_clone();
        let mut r: Vec<IdlValueExpr> = Vec::new();
        r.push(head);
        let mut rest = clone_value_vec(v, i + 1);
        proof {
            assert(value_exprs_view(rest@) == value_exprs_view(v@.skip(i + 1)));
        }
        let ghost rest_view = rest@;
        r.append(&mut rest);
        proof {
            let lhs = value_exprs_view(r@);
            let rhs = value_exprs_view(v@.skip(i as int));
            assert(r@ =~= seq![head] + rest_view);
            assert forall|k: int| 0 <= k < lhs.len() implies lhs[k] == rhs[k] by {
                assert(rhs[k] == value_expr_view(v@.skip(i as int)[k]));
                assert(v@.skip(i as int)[k] == v@[i + k]);
                if k == 0 {
                    assert(r@[0] == head);
                } else {
                    assert(r@[k] == rest_view[k - 1]);
                    assert(value_expr_view(rest_view[k - 1]) == value_exprs_view(rest_view)[k - 1]);
                    assert(value_exprs_view(v@.skip(i + 1))[k - 1] == value_expr_view(
                        v@.skip(i + 1)[k - 1],
                    ));
                    assert(v@.skip(i + 1)[k - 1] == v@[i + k]);
                }
            }
            assert(lhs =~= rhs);
        }
        r
    }
}

// ---------------------------------------------------------------------
// Rendering. Each `write` appends the rendering of the value's model to
// the output string.
// ---------------------------------------------------------------------

/// The token of a unary operator.
pub open spec fn render_unary(op: UnaryOp) -> Seq<char> {
    match op {
        UnaryOp::Neg => "-"@,
        UnaryOp::Pos => "+"@,
        UnaryOp::Inverse => "~"@,
    }
}

/// The token of a binary operator.
pub open spec fn render_binary(op: BinaryOp) -> Seq<char> {
    match op {
        BinaryOp::Add => "+"@,
        BinaryOp::Sub => "-"@,
        BinaryOp::Mul => "*"@,
        BinaryOp::Div => "/"@,
        BinaryOp::Mod => "%"@,
        BinaryOp::LShift => "<<"@,
        BinaryOp::RShift => ">>"@,
        BinaryOp::Or => "|"@,
        BinaryOp::Xor => "^"@,
        BinaryOp::And => "&"@,
    }
}

/// The path components from `i` on, each preceded by the scope
/// separator.
pub open spec fn render_scoped_tail(parts: Seq<Seq<char>>, i: int) -> Seq<char>
    decreases parts.len() - i,
{
    if i < 0 || i >= parts.len() {
        Seq::empty()
    } else {
        "::"@ + parts[i] + render_scoped_tail(parts, i + 1)
    }
}

/// A scoped name in target-language form: an absolute name is rooted at
/// the crate, the remaining components are joined by the scope
/// separator.
pub open spec fn render_scoped(n: ScopedNameV) -> Seq<char> {
    if n.parts.len() == 0 {
        Seq::empty()
    } else if n.abs {
        "crate::"@ + n.parts[0] + render_scoped_tail(n.parts, 1)
    } else {
        n.parts[0] + render_scoped_tail(n.parts, 1)
    }
}

/// The rendering of a constant expression: the exact source literals,
/// with a float assembled from its optional parts.
pub open spec fn render_value(e: ValueExprV) -> Seq<char>
    decreases e,
{
    match e {
        ValueExprV::NoValue => Seq::empty(),
        ValueExprV::DecLiteral(s) => s,
        ValueExprV::HexLiteral(s) => s,
        ValueExprV::OctLiteral(s) => s,
        ValueExprV::CharLiteral(s) => s,
        ValueExprV::WideCharLiteral(s) => s,
        ValueExprV::StringLiteral(s) => s,
        ValueExprV::WideStringLiteral(s) => s,
        ValueExprV::BooleanLiteral(b) => if b {
            "true"@
        } else {
            "false"@
        },
        ValueExprV::FloatLiteral(i, f, ex, su) => render_opt(i) + render_opt_pre("."@, f)
            + render_opt_pre("e"@, ex) + render_opt(su),
        ValueExprV::UnaryOp(op, e2) => render_unary(op) + render_value(*e2),
        ValueExprV::BinaryOp(op, e2) => render_binary(op) + render_value(*e2),
        ValueExprV::Expr(a, b) => render_value(*a) + render_value(*b),
        ValueExprV::Brace(a) => "("@ + render_value(*a) + ")"@,
        ValueExprV::ScopedName(n) => render_scoped(n),
    }
}

/// An optional literal part, or nothing.
pub open spec fn render_opt(o: Option<Seq<char>>) -> Seq<char> {
    match o {
        Option::Some(s) => s,
        Option::None => Seq::empty(),
    }
}

/// An optional literal part with a prefix, or nothing.
pub open spec fn render_opt_pre(pre: Seq<char>, o: Option<Seq<char>>) -> Seq<char> {
    match o {
        Option::Some(s) => pre + s,
        Option::None => Seq::empty(),
    }
}

impl UnaryOp {
    /// Append the operator's token.
    pub fn write(&self, out: &mut String)
        ensures
            final(out)@ == old(out)@ + render_unary(*self),
    {
        match self {
            UnaryOp::Neg => out.append("-"),
            UnaryOp::Pos => out.append("+"),
            UnaryOp::Inverse => out.append("~"),
        }
    }
}

impl BinaryOp {
    /// Append the operator's token.
    pub fn write(&self, out: &mut String)
        ensures
            final(out)@ == old(out)@ + render_binary(*self),
    {
        match self {
            BinaryOp::Add => out.append("+"),
            BinaryOp::Sub => out.append("-"),
            BinaryOp::Mul => out.append("*"),
            BinaryOp::Div => out.append("/"),
            BinaryOp::Mod => out.append("%"),
            BinaryOp::LShift => out.append("<<"),
            BinaryOp::RShift => out.append(">>"),
            BinaryOp::Or => out.append("|"),
            BinaryOp::Xor => out.append("^"),
            BinaryOp::And => out.append("&"),
        }
    }
}

impl IdlScopedName {
    /// Append the name in target-language form.
    pub fn write(&self, out: &mut String)
        ensures
            final(out)@ == old(out)@ + render_scoped(self@),
    {
        if self.0.len() > 0 {
            if self.1 {
                out.append("crate::");
            }
            out.append(self.0[0].as_str());
            self.write_tail(1, out);
        }
    }

    fn write_tail(&self, i: usize, out: &mut String)
        requires
            i >= 1,
        ensures
            final(out)@ == old(out)@ + render_scoped_tail(self@.parts, i as int),
        decreases self.0.len() - i,
    {
        if i < self.0.len() {
            out.append("::");
            out.append(self.0[i].as_str());
            self.write_tail(i + 1, out);
        }
    }
}

impl IdlValueExpr {
    /// Append the rendering of the expression.
    pub fn write(&self, out: &mut String)
        ensures
            final(out)@ == old(out)@ + render_value(self@),
        decreases self,
    {
        match self {
            IdlValueExpr::NoValue => {},
            IdlValueExpr::DecLiteral(s) => out.append(s.as_str()),
            IdlValueExpr::HexLiteral(s) => out.append(s.as_str()),
            IdlValueExpr::OctLiteral(s) => out.append(s.as_str()),
            IdlValueExpr::CharLiteral(s) => out.append(s.as_str()),
            IdlValueExpr::WideCharLiteral(s) => out.append(s.as_str()),
            IdlValueExpr::StringLiteral(s) => out.append(s.as_str()),
            IdlValueExpr::WideStringLiteral(s) => out.append(s.as_str()),
            IdlValueExpr::BooleanLiteral(b) => {
                if *b {
                    out.append("true");
                } else {
                    out.append("false");
                }
            },
            IdlValueExpr::FloatLiteral(i, f, e, s) => {
                if let Option::Some(x) = i {
                    out.append(x.as_str());
                }
                if let Option::Some(x) = f {
                    out.append(".");
                    out.append(x.as_str());
                }
                if let Option::Some(x) = e {
                    out.append("e");
                    out.append(x.as_str());
                }
                if let Option::Some(x) = s {
                    out.append(x.as_str());
                }
            },
            IdlValueExpr::UnaryOp(op, e) => {
                op.write(out);
                e.write(out);
            },
            IdlValueExpr::BinaryOp(op, e) => {
                op.write(out);
                e.write(out);
            },
            IdlValueExpr::Expr(a, b) => {
                a.write(out);
                b.write(out);
            },
            IdlValueExpr::Brace(a) => {
                out.append("(");
                a.write(out);
                out.append(")");
            },
            IdlValueExpr::ScopedName(n) => n.write(out),
        }
    }
}

/// `n` opening brackets.
pub open spec fn brackets(n: nat) -> Seq<char>
    decreases n,
{
    if n == 0 {
        Seq::empty()
    } else {
        brackets((n - 1) as nat) + "["@
    }
}

/// The dimension suffixes of an array type from dimension `i` on: each
/// dimension closes one bracket.
pub open spec fn render_dims(dims: Seq<ValueExprV>, i: int) -> Seq<char>
    decreases dims.len() - i,
{
    if i < 0 || i >= dims.len() {
        Seq::empty()
    } else {
        ";"@ + render_value(dims[i]) + "]"@ + render_dims(dims, i + 1)
    }
}

/// Whether a type expression can be rendered: every type but the absent
/// one, looking through array elements.
pub open spec fn writable(t: TypeSpecV) -> bool
    decreases t,
{
    match t {
        TypeSpecV::NoType => false,
        TypeSpecV::ArrayType(e, _dims) => writable(*e),
        _ => true,
    }
}

/// The target-language spelling of a type expression. An unbounded
/// string is a raw character pointer; a bounded one is a string type; a
/// sequence is the generated sequence type.
pub open spec fn render_type(t: TypeSpecV) -> Seq<char>
    decreases t,
{
    match t {
        TypeSpecV::NoType => Seq::empty(),
        TypeSpecV::F32Type => "f32"@,
        TypeSpecV::F64Type => "f64"@,
        TypeSpecV::F128Type => "f128"@,
        TypeSpecV::I16Type => "i16"@,
        TypeSpecV::I32Type => "i32"@,
        TypeSpecV::I64Type => "i64"@,
        TypeSpecV::U16Type => "u16"@,
        TypeSpecV::U32Type => "u32"@,
        TypeSpecV::U64Type => "u64"@,
        TypeSpecV::CharType => "char"@,
        TypeSpecV::WideCharType => "char"@,
        TypeSpecV::BooleanType => "bool"@,
        TypeSpecV::OctetType => "u8"@,
        TypeSpecV::StringType(bound) => match bound {
            Option::None => "*mut ::std::os::raw::c_char"@,
            Option::Some(_) => "String"@,
        },
        TypeSpecV::WideStringType(bound) => match bound {
            Option::None => "*mut ::std::os::raw::c_char"@,
            Option::Some(_) => "String"@,
        },
        TypeSpecV::SequenceType(_e, _bound) => "dds_sequence_t"@,
        TypeSpecV::ArrayType(e, dims) => brackets(dims.len()) + render_type(*e) + render_dims(
            dims,
            0,
        ),
        TypeSpecV::ScopedName(n) => render_scoped(n),
    }
}

impl IdlTypeSpec {
    /// Append the target-language spelling of the type.
    pub fn write(&self, out: &mut String)
        requires
            writable(self@),
        ensures
            final(out)@ == old(out)@ + render_type(self@),
        decreases self,
    {
        match self {
            IdlTypeSpec::NoType => {},
            IdlTypeSpec::F32Type => out.append("f32"),
            IdlTypeSpec::F64Type => out.append("f64"),
            IdlTypeSpec::F128Type => out.append("f128"),
            IdlTypeSpec::I16Type => out.append("i16"),
            IdlTypeSpec::I32Type => out.append("i32"),
            IdlTypeSpec::I64Type => out.append("i64"),
            IdlTypeSpec::U16Type => out.append("u16"),
            IdlTypeSpec::U32Type => out.append("u32"),
            IdlTypeSpec::U64Type => out.append("u64"),
            IdlTypeSpec::CharType => out.append("char"),
            IdlTypeSpec::WideCharType => out.append("char"),
            IdlTypeSpec::BooleanType => out.append("bool"),
            IdlTypeSpec::OctetType => out.append("u8"),
            IdlTypeSpec::StringType(bound) => match bound {
                Option::None => out.append("*mut ::std::os::raw::c_char"),
                Option::Some(_) => out.append("String"),
            },
            IdlTypeSpec::WideStringType(bound) => match bound {
                Option::None => out.append("*mut ::std::os::raw::c_char"),
                Option::Some(_) => out.append("String"),
            },
            IdlTypeSpec::SequenceType(_e, _bound) => out.append("dds_sequence_t"),
            IdlTypeSpec::ArrayType(e, dims) => {
                proof {
                    assert(out@ =~= out@ + brackets(0));
                }
                let mut k: usize = 0;
                while k < dims.len()
                    invariant
                        k <= dims.len(),
                        out@ == old(out)@ + brackets(k as nat),
                    decreases dims.len() - k,
                {
                    out.append("[");
                    proof {
                        assert(old(out)@ + brackets(k as nat) + "["@ =~= old(out)@ + brackets(
                            (k + 1) as nat,
                        ));
                    }
                    k = k + 1;
                }
                e.write(out);
                write_dims(dims, 0, out);
                proof {
                    assert(out@ =~= old(out)@ + render_type(self@));
                }
            },
            IdlTypeSpec::ScopedName(n) => n.write(out),
        }
    }
}

/// Append the dimension suffixes of an array type from dimension `i` on.
fn write_dims(dims: &Vec<IdlValueExpr>, i: usize, out: &mut String)
    requires
        i <= dims.len(),
    ensures
        final(out)@ == old(out)@ + render_dims(value_exprs_view(dims@), i as int),
    decreases dims.len() - i,
{
    if i < dims.len() {
        out.append(";");
        dims[i].write(out);
        out.append("]");
        write_dims(dims, i + 1, out);
    }
}

/// The rendering of one struct member or union element: its name, the
/// spelling of its type, and a trailing comma.
pub open spec fn render_member(id: Seq<char>, t: TypeSpecV) -> Seq<char> {
    id + ": "@ + render_type(t) + ","@
}

impl IdlStructMember {
    /// Append the member's rendering; the level is kept for symmetry
    /// with the other declarations and does not change the output.
    pub fn write(&self, out: &mut String, _level: usize)
        requires
            writable(self@.type_spec),
        ensures
            final(out)@ == old(out)@ + render_member(self@.id, self@.type_spec),
    {
        out.append(self.id.as_str());
        out.append(": ");
        self.type_spec.write(out);
        out.append(",");
    }
}

impl IdlSwitchElement {
    /// Append the element's rendering.
    pub fn write(&self, out: &mut String, _level: usize)
        requires
            writable(self@.type_spec),
        ensures
            final(out)@ == old(out)@ + render_member(self@.id, self@.type_spec),
    {
        out.append(self.id.as_str());
        out.append(": ");
        self.type_spec.write(out);
        out.append(",");
    }
}

/// `n` spaces of indentation.
pub open spec fn spaces(n: nat) -> Seq<char>
    decreases n,
{
    if n == 0 {
        Seq::empty()
    } else {
        spaces((n - 1) as nat) + " "@
    }
}

/// Append `n` spaces.
pub fn write_spaces(out: &mut String, n: usize)
    ensures
        final(out)@ == old(out)@ + spaces(n as nat),
{
    proof {
        assert(out@ =~= out@ + spaces(0));
    }
    let mut k: usize = 0;
    while k < n
        invariant
            k <= n,
            out@ == old(out)@ + spaces(k as nat),
        decreases n - k,
    {
        out.append(" ");
        proof {
            assert(old(out)@ + spaces(k as nat) + " "@ =~= old(out)@ + spaces((k + 1) as nat));
        }
        k = k + 1;
    }
}

/// The rendering of one case label and its element, as one arm of the
/// target-language enum.
pub open spec fn render_label(l: SwitchLabelV, elem: SwitchElementV, level: nat) -> Seq<char> {
    match l {
        SwitchLabelV::Label(v) => spaces(4 * level) + render_value(v) + "{"@ + render_member(
            elem.id,
            elem.type_spec,
        ) + "},\n"@,
        SwitchLabelV::Default => spaces(4 * level) + "default{"@ + render_member(
            elem.id,
            elem.type_spec,
        ) + "},\n"@,
    }
}

/// The renderings of the labels from `i` on, each with the case's
/// element.
pub open spec fn render_labels(
    labels: Seq<SwitchLabelV>,
    i: int,
    elem: SwitchElementV,
    level: nat,
) -> Seq<char>
    decreases labels.len() - i,
{
    if i < 0 || i >= labels.len() {
        Seq::empty()
    } else {
        render_label(labels[i], elem, level) + render_labels(labels, i + 1, elem, level)
    }
}

/// The rendering of a whole union arm: one enum arm per label.
pub open spec fn render_case(c: SwitchCaseV, level: nat) -> Seq<char> {
    render_labels(c.labels, 0, c.elem_spec, level)
}

impl IdlSwitchCase {
    /// Append one target-language enum arm per label of this case.
    pub fn write(&self, out: &mut String, level: usize)
        requires
            writable(self@.elem_spec.type_spec),
            4 * level <= usize::MAX,
        ensures
            final(out)@ == old(out)@ + render_case(self@, level as nat),
    {
        self.write_labels(0, out, level);
    }

    fn write_labels(&self, i: usize, out: &mut String, level: usize)
        requires
            i <= self.labels.len(),
            writable(self@.elem_spec.type_spec),
            4 * level <= usize::MAX,
        ensures
            final(out)@ == old(out)@ + render_labels(
                self@.labels,
                i as int,
                self@.elem_spec,
                level as nat,
            ),
        decreases self.labels.len() - i,
    {
        if i < self.labels.len() {
            match &self.labels[i] {
                IdlSwitchLabel::Label(v) => {
                    write_spaces(out, level * 4);
                    v.write(out);
                    out.append("{");
                    self.elem_spec.write(out, level + 1);
                    out.append("},\n");
                },
                IdlSwitchLabel::Default => {
                    write_spaces(out, level * 4);
                    out.append("default{");
                    self.elem_spec.write(out, level + 1);
                    out.append("},\n");
                },
            }
            self.write_labels(i + 1, out, level);
        }
    }
}

/// The rendering of a constant declaration: an attribute line, then an
/// indented target-language constant with the declared type and the
/// exact source value.
pub open spec fn render_const(c: crate::model::ConstDclV, level: nat) -> Seq<char> {
    spaces(4 * level) + "#[allow(dead_code)]"@ + "\n"@ + spaces(4 * level) + "pub const "@ + c.id
        + ": "@ + render_type(c.typedcl) + " = "@ + render_value(c.value) + ";\n"@
}

impl IdlConstDcl {
    /// Append the target-language constant declaration. The root module
    /// is kept for symmetry with the other declarations and is not read.
    pub fn write(&self, out: &mut String, level: usize, _root: &IdlModule)
        requires
            writable(self@.typedcl),
            4 * level <= usize::MAX,
        ensures
            final(out)@ == old(out)@ + render_const(self@, level as nat),
    {
        write_spaces(out, level * 4);
        out.append("#[allow(dead_code)]");
        out.append("\n");
        write_spaces(out, level * 4);
        out.append("pub const ");
        out.append(self.id.as_str());
        out.append(": ");
        self.typedcl.write(out);
        out.append(" = ");
        self.value.write(out);
        out.append(";\n");
    }
}

// ---------------------------------------------------------------------
// The symbol table: named lookup, scoped-name resolution, declaration
// with created scopes, and key flagging.
// ---------------------------------------------------------------------

/// The position of the first entry with the given name, or -1 if the
/// name is not declared in this scope.
pub open spec fn find_name_idx<T>(s: Seq<(Seq<char>, T)>, name: Seq<char>) -> int
    decreases s.len(),
{
    if s.len() == 0 {
        -1
    } else if s[0].0 == name {
        0
    } else {
        let r = find_name_idx(s.drop_first(), name);
        if r == -1 {
            -1
        } else {
            r + 1
        }
    }
}

/// What `find_name_idx` returns: -1 when no entry has the name, else
/// the position of the first entry that does.
pub proof fn lemma_find_name_idx<T>(s: Seq<(Seq<char>, T)>, name: Seq<char>)
    ensures
        -1 <= find_name_idx(s, name) < s.len(),
        find_name_idx(s, name) != -1 ==> s[find_name_idx(s, name)].0 == name,
        forall|k: int|
            0 <= k < s.len() && (k < find_name_idx(s, name) || find_name_idx(s, name) == -1)
                ==> (#[trigger] s[k]).0 != name,
    decreases s.len(),
{
    if s.len() > 0 && s[0].0 != name {
        lemma_find_name_idx(s.drop_first(), name);
        let d = s.drop_first();
        assert forall|k: int|
            0 <= k < s.len() && (k < find_name_idx(s, name) || find_name_idx(s, name) == -1)
                implies (#[trigger] s[k]).0 != name by {
            if k > 0 {
                assert(s[k] == d[k - 1]);
            }
        };
    }
}

/// Resolution of a scoped name: always from the module given as root,
/// one path component per nesting step; the last component is looked up
/// among the type declarations of the scope reached. An empty path and
/// any unmatched component resolve to nothing.
pub open spec fn resolve_path(m: ModuleV, path: Seq<Seq<char>>) -> Option<TypeDclKindV>
    decreases m,
    via resolve_path_decreases
{
    if path.len() == 1 {
        let j = find_name_idx(m.types, path[0]);
        if j == -1 {
            Option::None
        } else {
            Option::Some(m.types[j].1)
        }
    } else if path.len() > 1 {
        let j = find_name_idx(m.modules, path[0]);
        if j == -1 {
            Option::None
        } else {
            resolve_path(m.modules[j].1, path.drop_first())
        }
    } else {
        Option::None
    }
}

#[via_fn]
proof fn resolve_path_decreases(m: ModuleV, path: Seq<Seq<char>>) {
    if path.len() > 1 {
        lemma_find_name_idx(m.modules, path[0]);
        let j = find_name_idx(m.modules, path[0]);
        if j != -1 {
            assert(decreases_to!(m => m.modules[j].1));
        }
    }
}

/// Declaration of a type at the end of a scope path: missing scopes are
/// created along the way, each recording the full path length as its
/// nesting level; in the scope reached the declaration is inserted only
/// if the name is absent — the first declaration wins.
pub open spec fn declare_type_at(
    m: ModuleV,
    scope: Seq<Seq<char>>,
    i: int,
    level: nat,
    name: Seq<char>,
    decl: TypeDclKindV,
) -> ModuleV
    decreases scope.len() - i,
{
    if i < 0 || i >= scope.len() {
        if find_name_idx(m.types, name) != -1 {
            m
        } else {
            ModuleV { types: m.types.push((name, decl)), ..m }
        }
    } else {
        let j = find_name_idx(m.modules, scope[i]);
        if j == -1 {
            ModuleV {
                modules: m.modules.push(
                    (
                        scope[i],
                        declare_type_at(
                            new_module_v(Option::Some(scope[i]), level),
                            scope,
                            i + 1,
                            level,
                            name,
                            decl,
                        ),
                    ),
                ),
                ..m
            }
        } else {
            ModuleV {
                modules: m.modules.update(
                    j,
                    (m.modules[j].0, declare_type_at(m.modules[j].1, scope, i + 1, level, name, decl)),
                ),
                ..m
            }
        }
    }
}

/// Appending an entry with a name that is not yet declared makes the
/// appended entry the first match for it.
pub proof fn lemma_find_name_push_new<T>(s: Seq<(Seq<char>, T)>, e: (Seq<char>, T), name: Seq<char>)
    requires
        find_name_idx(s, name) == -1,
        e.0 == name,
    ensures
        find_name_idx(s.push(e), name) == s.len(),
    decreases s.len(),
{
    reveal_with_fuel(find_name_idx, 3);
    if s.len() == 0 {
        assert(s.push(e)[0] == e);
    } else {
        assert(s.push(e)[0] == s[0]);
        assert(s[0].0 != name);
        lemma_find_name_idx(s.drop_first(), name);
        lemma_find_name_push_new(s.drop_first(), e, name);
        assert(s.push(e).drop_first() =~= s.drop_first().push(e));
    }
}

/// Finding a name is unchanged by replacing an entry's payload.
pub proof fn lemma_find_name_update<T>(s: Seq<(Seq<char>, T)>, j: int, x: T, name: Seq<char>)
    requires
        0 <= j < s.len(),
    ensures
        find_name_idx(s.update(j, (s[j].0, x)), name) == find_name_idx(s, name),
    decreases s.len(),
{
    reveal_with_fuel(find_name_idx, 3);
    let s2 = s.update(j, (s[j].0, x));
    assert(s2[0].0 == s[0].0);
    if s[0].0 != name {
        if j == 0 {
            assert(s2.drop_first() =~= s.drop_first());
        } else {
            lemma_find_name_update(s.drop_first(), j - 1, x, name);
            assert(s2.drop_first() =~= s.drop_first().update(j - 1, (s.drop_first()[j - 1].0, x)));
        }
    }
}

/// Declaring a name twice in the same scope keeps the first
/// declaration: the second declaration, whatever it holds, changes
/// nothing.
pub proof fn lemma_declare_type_idempotent(
    m: ModuleV,
    scope: Seq<Seq<char>>,
    i: int,
    level: nat,
    name: Seq<char>,
    d1: TypeDclKindV,
    d2: TypeDclKindV,
)
    ensures
        declare_type_at(declare_type_at(m, scope, i, level, name, d1), scope, i, level, name, d2)
            == declare_type_at(m, scope, i, level, name, d1),
    decreases scope.len() - i,
{
    reveal_with_fuel(find_name_idx, 3);
    let m1 = declare_type_at(m, scope, i, level, name, d1);
    if i < 0 || i >= scope.len() {
        if find_name_idx(m.types, name) == -1 {
            lemma_find_name_push_new(m.types, (name, d1), name);
        }
        assert(find_name_idx(m1.types, name) != -1);
    } else {
        let j = find_name_idx(m.modules, scope[i]);
        if j == -1 {
            let sub = declare_type_at(new_module_v(Option::Some(scope[i]), level), scope, i + 1, level, name, d1);
            lemma_find_name_push_new(m.modules, (scope[i], sub), scope[i]);
            lemma_declare_type_idempotent(
                new_module_v(Option::Some(scope[i]), level),
                scope,
                i + 1,
                level,
                name,
                d1,
                d2,
            );
            assert(m1.modules[m.modules.len() as int] == (scope[i], sub));
            assert(declare_type_at(m1, scope, i, level, name, d2).modules =~= m1.modules);
            assert(declare_type_at(m1, scope, i, level, name, d2) =~= m1);
        } else {
            lemma_find_name_idx(m.modules, scope[i]);
            let sub = declare_type_at(m.modules[j].1, scope, i + 1, level, name, d1);
            lemma_find_name_update(m.modules, j, sub, scope[i]);
            lemma_declare_type_idempotent(m.modules[j].1, scope, i + 1, level, name, d1, d2);
            assert(m1.modules[j] == (m.modules[j].0, sub));
            assert(declare_type_at(m1, scope, i, level, name, d2).modules =~= m1.modules);
            assert(declare_type_at(m1, scope, i, level, name, d2) =~= m1);
        }
    }
}

/// Declaration of a constant at the end of a scope path, exactly as
/// `declare_type_at` but into the constants of the scope reached.
pub open spec fn declare_const_at(
    m: ModuleV,
    scope: Seq<Seq<char>>,
    i: int,
    level: nat,
    name: Seq<char>,
    decl: ConstDclV,
) -> ModuleV
    decreases scope.len() - i,
{
    if i < 0 || i >= scope.len() {
        if find_name_idx(m.constants, name) != -1 {
            m
        } else {
            ModuleV { constants: m.constants.push((name, decl)), ..m }
        }
    } else {
        let j = find_name_idx(m.modules, scope[i]);
        if j == -1 {
            ModuleV {
                modules: m.modules.push(
                    (
                        scope[i],
                        declare_const_at(
                            new_module_v(Option::Some(scope[i]), level),
                            scope,
                            i + 1,
                            level,
                            name,
                            decl,
                        ),
                    ),
                ),
                ..m
            }
        } else {
            ModuleV {
                modules: m.modules.update(
                    j,
                    (
                        m.modules[j].0,
                        declare_const_at(m.modules[j].1, scope, i + 1, level, name, decl),
                    ),
                ),
                ..m
            }
        }
    }
}

/// Creation of the scopes along a path without declaring anything, as
/// walking to a module does.
pub open spec fn ensure_path_at(m: ModuleV, scope: Seq<Seq<char>>, i: int, level: nat) -> ModuleV
    decreases scope.len() - i,
{
    if i < 0 || i >= scope.len() {
        m
    } else {
        let j = find_name_idx(m.modules, scope[i]);
        if j == -1 {
            ModuleV {
                modules: m.modules.push(
                    (
                        scope[i],
                        ensure_path_at(new_module_v(Option::Some(scope[i]), level), scope, i + 1, level),
                    ),
                ),
                ..m
            }
        } else {
            ModuleV {
                modules: m.modules.update(
                    j,
                    (m.modules[j].0, ensure_path_at(m.modules[j].1, scope, i + 1, level)),
                ),
                ..m
            }
        }
    }
}

/// One member after a key-list directive: it becomes a key if the
/// directive names it, and keeps its flag otherwise.
pub open spec fn mark_member(mem: StructMemberV, keys: Seq<Seq<char>>) -> StructMemberV {
    StructMemberV {
        is_key: if keys.contains(mem.id) {
            true
        } else {
            mem.is_key
        },
        ..mem
    }
}

/// All members after a key-list directive.
pub open spec fn mark_members(ms: Seq<StructMemberV>, keys: Seq<Seq<char>>) -> Seq<StructMemberV> {
    Seq::new(ms.len(), |i: int| mark_member(ms[i], keys))
}

/// One declaration after a key-list directive: a struct with the named
/// struct's name becomes a topic and has its named members marked; any
/// other declaration is untouched.
pub open spec fn mark_kind(k: TypeDclKindV, sname: Seq<char>, keys: Seq<Seq<char>>) -> TypeDclKindV {
    match k {
        TypeDclKindV::StructDcl(n, ms, _flag) => if n == sname {
            TypeDclKindV::StructDcl(n, mark_members(ms, keys), true)
        } else {
            k
        },
        _ => k,
    }
}

/// All declarations of a scope after a key-list directive.
pub open spec fn mark_types(
    ts: Seq<(Seq<char>, TypeDclKindV)>,
    sname: Seq<char>,
    keys: Seq<Seq<char>>,
) -> Seq<(Seq<char>, TypeDclKindV)> {
    Seq::new(ts.len(), |i: int| (ts[i].0, mark_kind(ts[i].1, sname, keys)))
}

/// The declaration is a struct with this name.
pub open spec fn is_matching_struct(k: TypeDclKindV, sname: Seq<char>) -> bool {
    k matches TypeDclKindV::StructDcl(n, _ms, _f) && n == sname
}

/// Some declaration of the scope is a struct with this name.
pub open spec fn struct_found(ts: Seq<(Seq<char>, TypeDclKindV)>, sname: Seq<char>) -> bool {
    exists|i: int| #![trigger ts[i]] 0 <= i < ts.len() && is_matching_struct(ts[i].1, sname)
}

/// Some member has this name.
pub open spec fn member_named(ms: Seq<StructMemberV>, key: Seq<char>) -> bool {
    exists|j: int| #![trigger ms[j]] 0 <= j < ms.len() && ms[j].id == key
}

/// The declaration is a struct with this name and a member of this
/// name.
pub open spec fn key_in_kind(k: TypeDclKindV, sname: Seq<char>, key: Seq<char>) -> bool {
    k matches TypeDclKindV::StructDcl(n, ms, _f) && n == sname && member_named(ms, key)
}

/// The requested key name matches a member of some struct with this
/// name in the scope.
pub open spec fn key_found(
    ts: Seq<(Seq<char>, TypeDclKindV)>,
    sname: Seq<char>,
    key: Seq<char>,
) -> bool {
    exists|i: int| #![trigger ts[i]] 0 <= i < ts.len() && key_in_kind(ts[i].1, sname, key)
}

/// Every requested key name matches some member.
pub open spec fn all_keys_found(
    ts: Seq<(Seq<char>, TypeDclKindV)>,
    sname: Seq<char>,
    keys: Seq<Seq<char>>,
) -> bool {
    forall|t: int| 0 <= t < keys.len() ==> key_found(ts, sname, #[trigger] keys[t])
}

/// A key-list directive applies to a scope when the struct exists there
/// and every requested key name matches some member. Partial matches are
/// rejected, never partially applied.
pub open spec fn keylist_applies(
    ts: Seq<(Seq<char>, TypeDclKindV)>,
    sname: Seq<char>,
    keys: Seq<Seq<char>>,
) -> bool {
    struct_found(ts, sname) && all_keys_found(ts, sname, keys)
}

/// Whether a name vector holds this string.
pub fn vec_contains_string(keys: &Vec<String>, s: &String) -> (r: bool)
    ensures
        r == keys.deep_view().contains(s@),
{
    let mut j: usize = 0;
    while j < keys.len()
        invariant
            j <= keys.len(),
            forall|k: int| 0 <= k < j ==> keys.deep_view()[k] != s@,
        decreases keys.len() - j,
    {
        if *s == keys[j] {
            proof {
                assert(keys.deep_view()[j as int] == s@);
            }
            return true;
        }
        j = j + 1;
    }
    proof {
        assert forall|k: int| 0 <= k < keys.deep_view().len() implies #[trigger] keys.deep_view()[k]
            != s@ by {}
    }
    false
}

/// Whether some member of the vector has this name.
fn member_named_exec(members: &Vec<IdlStructMember>, key: &String) -> (r: bool)
    ensures
        r == member_named(struct_members_view(members@), key@),
{
    let ghost ms = struct_members_view(members@);
    let mut j: usize = 0;
    while j < members.len()
        invariant
            j <= members.len(),
            ms == struct_members_view(members@),
            forall|k: int| #![trigger ms[k]] 0 <= k < j ==> ms[k].id != key@,
        decreases members.len() - j,
    {
        if members[j].id == *key {
            proof {
                assert(ms[j as int].id == key@);
            }
            return true;
        }
        j = j + 1;
    }
    false
}

/// The members with the named ones marked as keys; all else is kept.
fn mark_members_exec(members: Vec<IdlStructMember>, keys: &Vec<String>) -> (r: Vec<
    IdlStructMember,
>)
    ensures
        struct_members_view(r@) == mark_members(struct_members_view(members@), keys.deep_view()),
{
    let ghost orig = members@;
    let mut ms = members;
    let mut i: usize = 0;
    while i < ms.len()
        invariant
            i <= ms.len(),
            ms@.len() == orig.len(),
            forall|k: int| i <= k < orig.len() ==> ms@[k] == orig[k],
            forall|k: int|
                0 <= k < i ==> struct_member_view(#[trigger] ms@[k]) == mark_member(
                    struct_member_view(orig[k]),
                    keys.deep_view(),
                ),
        decreases ms.len() - i,
    {
        let mut mem = IdlStructMember {
            id: String::new(),
            type_spec: Box::new(IdlTypeSpec::NoType),
            is_key: false,
        };
        ms.set_and_swap(i, &mut mem);
        let in_keys = vec_contains_string(keys, &mem.id);
        mem.is_key = in_keys || mem.is_key;
        ms.set(i, mem);
        i = i + 1;
    }
    proof {
        assert(struct_members_view(ms@) =~= mark_members(struct_members_view(orig), keys.deep_view()));
    }
    ms
}

impl IdlModule {
    /// A fresh scope with the given name and nesting level.
    pub fn new(id: Option<String>, level: usize) -> (r: IdlModule)
        ensures
            r@ == new_module_v(id.deep_view(), level as nat),
    {
        let r = IdlModule {
            id,
            level,
            modules: Vec::new(),
            types: Vec::new(),
            constants: Vec::new(),
            keys: Vec::new(),
        };
        proof {
            let w = new_module_v(r.id.deep_view(), level as nat);
            assert(r@.modules =~= w.modules);
            assert(r@.types =~= w.types);
            assert(r@.constants =~= w.constants);
            assert(r@.keys =~= w.keys);
            assert(r@ =~= w);
        }
        r
    }

    /// The position of the first submodule with this name.
    fn find_module_position(&self, name: &str) -> (r: Option<usize>)
        ensures
            match r {
                Option::Some(j) => j < self.modules.len() && find_name_idx(self@.modules, name@)
                    == j as int,
                Option::None => find_name_idx(self@.modules, name@) == -1,
            },
    {
        proof {
            lemma_find_name_idx(self@.modules, name@);
        }
        let mut j: usize = 0;
        while j < self.modules.len()
            invariant
                j <= self.modules.len(),
                forall|k: int| 0 <= k < j ==> (#[trigger] self@.modules[k]).0 != name@,
            decreases self.modules.len() - j,
        {
            if str_eq(self.modules[j].0.as_str(), name) {
                proof {
                    assert(self@.modules[j as int].0 == name@);
                    lemma_find_name_idx(self@.modules, name@);
                }
                return Option::Some(j);
            }
            j = j + 1;
        }
        Option::None
    }

    /// The position of the first type declaration with this name.
    fn find_type_position(&self, name: &str) -> (r: Option<usize>)
        ensures
            match r {
                Option::Some(j) => j < self.types.len() && find_name_idx(self@.types, name@)
                    == j as int,
                Option::None => find_name_idx(self@.types, name@) == -1,
            },
    {
        proof {
            lemma_find_name_idx(self@.types, name@);
        }
        let mut j: usize = 0;
        while j < self.types.len()
            invariant
                j <= self.types.len(),
                forall|k: int| 0 <= k < j ==> (#[trigger] self@.types[k]).0 != name@,
            decreases self.types.len() - j,
        {
            if str_eq(self.types[j].0.as_str(), name) {
                proof {
                    assert(self@.types[j as int].0 == name@);
                    lemma_find_name_idx(self@.types, name@);
                }
                return Option::Some(j);
            }
            j = j + 1;
        }
        Option::None
    }

    /// The position of the first constant declaration with this name.
    fn find_const_position(&self, name: &str) -> (r: Option<usize>)
        ensures
            match r {
                Option::Some(j) => j < self.constants.len() && find_name_idx(
                    self@.constants,
                    name@,
                ) == j as int,
                Option::None => find_name_idx(self@.constants, name@) == -1,
            },
    {
        proof {
            lemma_find_name_idx(self@.constants, name@);
        }
        let mut j: usize = 0;
        while j < self.constants.len()
            invariant
                j <= self.constants.len(),
                forall|k: int| 0 <= k < j ==> (#[trigger] self@.constants[k]).0 != name@,
            decreases self.constants.len() - j,
        {
            if str_eq(self.constants[j].0.as_str(), name) {
                proof {
                    assert(self@.constants[j as int].0 == name@);
                    lemma_find_name_idx(self@.constants, name@);
                }
                return Option::Some(j);
            }
            j = j + 1;
        }
        Option::None
    }

    /// Resolve a scoped name from this module as root; the absolute flag
    /// plays no part, resolution always starts here.
    pub fn get_type_decl(&self, scoped_name: &IdlScopedName) -> (r: Option<&IdlTypeDcl>)
        ensures
            match r {
                Option::Some(d) => resolve_path(self@, scoped_name@.parts) == Option::Some(d@),
                Option::None => resolve_path(self@, scoped_name@.parts) is None,
            },
    {
        let r = self.get_type_decl_from(&scoped_name.0, 0);
        proof {
            assert(scoped_name.0.deep_view().skip(0) =~= scoped_name@.parts);
        }
        r
    }

    /// Resolve the path components from `i` on, from this module.
    fn get_type_decl_from(&self, parts: &Vec<String>, i: usize) -> (r: Option<&IdlTypeDcl>)
        requires
            i <= parts.len(),
        ensures
            match r {
                Option::Some(d) => resolve_path(self@, parts.deep_view().skip(i as int))
                    == Option::Some(d@),
                Option::None => resolve_path(self@, parts.deep_view().skip(i as int)) is None,
            },
        decreases parts.len() - i,
    {
        let remaining = parts.len() - i;
        if remaining == 1 {
            match self.find_type_position(parts[i].as_str()) {
                Option::Some(j) => {
                    proof {
                        assert(parts.deep_view().skip(i as int)[0] == parts@[i as int]@);
                    }
                    Option::Some(&self.types[j].1)
                },
                Option::None => {
                    proof {
                        assert(parts.deep_view().skip(i as int)[0] == parts@[i as int]@);
                    }
                    Option::None
                },
            }
        } else if remaining > 1 {
            match self.find_module_position(parts[i].as_str()) {
                Option::Some(j) => {
                    let r = self.modules[j].1.get_type_decl_from(parts, i + 1);
                    proof {
                        assert(parts.deep_view().skip(i as int)[0] == parts@[i as int]@);
                        assert(parts.deep_view().skip(i as int).drop_first() =~= parts.deep_view()
                            .skip(i + 1));
                    }
                    r
                },
                Option::None => {
                    proof {
                        assert(parts.deep_view().skip(i as int)[0] == parts@[i as int]@);
                    }
                    Option::None
                },
            }
        } else {
            Option::None
        }
    }

    /// Create the scopes along the path that do not exist yet; each new
    /// one records the full path length as its nesting level.
    pub fn ensure_module_path(&mut self, scope: &Vec<String>)
        ensures
            final(self)@ == ensure_path_at(old(self)@, scope.deep_view(), 0, scope@.len() as nat),
    {
        self.ensure_module_path_from(scope, 0);
    }

    fn ensure_module_path_from(&mut self, scope: &Vec<String>, i: usize)
        requires
            i <= scope.len(),
        ensures
            final(self)@ == ensure_path_at(
                old(self)@,
                scope.deep_view(),
                i as int,
                scope@.len() as nat,
            ),
        decreases scope.len() - i,
    {
        if i < scope.len() {
            match self.find_module_position(scope[i].as_str()) {
                Option::None => {
                    let mut sub = IdlModule::new(Option::Some(scope[i].clone()), scope.len());
                    sub.ensure_module_path_from(scope, i + 1);
                    self.modules.push((scope[i].clone(), sub));
                    proof {
                        let w = ensure_path_at(old(self)@, scope.deep_view(), i as int, scope@.len() as nat);
                        assert(self@.modules =~~= w.modules);
                        assert(self@.types =~~= w.types);
                        assert(self@.constants =~~= w.constants);
                        assert(self@.keys =~~= w.keys);
                        assert(self@ =~= w);
                    }
                },
                Option::Some(j) => {
                    let mut entry: (String, IdlModule) = (
                        String::new(),
                        IdlModule::new(Option::None, 0),
                    );
                    self.modules.set_and_swap(j, &mut entry);
                    entry.1.ensure_module_path_from(scope, i + 1);
                    self.modules.set(j, entry);
                    proof {
                        let w = ensure_path_at(old(self)@, scope.deep_view(), i as int, scope@.len() as nat);
                        assert(self@.modules =~~= w.modules);
                        assert(self@.types =~~= w.types);
                        assert(self@.constants =~~= w.constants);
                        assert(self@.keys =~~= w.keys);
                        assert(self@ =~= w);
                    }
                },
            }
        }
    }

    /// Declare a type at the end of a scope path: scopes are created as
    /// needed and the first declaration of a name wins — a second
    /// declaration of the same name in the same scope changes nothing.
    pub fn declare_type(&mut self, scope: &Vec<String>, name: String, decl: IdlTypeDcl)
        ensures
            final(self)@ == declare_type_at(
                old(self)@,
                scope.deep_view(),
                0,
                scope@.len() as nat,
                name@,
                decl@,
            ),
    {
        self.declare_type_from(scope, 0, name, decl);
    }

    fn declare_type_from(&mut self, scope: &Vec<String>, i: usize, name: String, decl: IdlTypeDcl)
        requires
            i <= scope.len(),
        ensures
            final(self)@ == declare_type_at(
                old(self)@,
                scope.deep_view(),
                i as int,
                scope@.len() as nat,
                name@,
                decl@,
            ),
        decreases scope.len() - i,
    {
        if i == scope.len() {
            match self.find_type_position(name.as_str()) {
                Option::Some(_j) => {},
                Option::None => {
                    self.types.push((name, decl));
                    proof {
                        let w = declare_type_at(old(self)@, scope.deep_view(), i as int, scope@.len() as nat, name@, decl@);
                        assert(self@.modules =~~= w.modules);
                        assert(self@.types =~~= w.types);
                        assert(self@.constants =~~= w.constants);
                        assert(self@.keys =~~= w.keys);
                        assert(self@ =~= w);
                    }
                },
            }
        } else {
            match self.find_module_position(scope[i].as_str()) {
                Option::None => {
                    let mut sub = IdlModule::new(Option::Some(scope[i].clone()), scope.len());
                    sub.declare_type_from(scope, i + 1, name, decl);
                    self.modules.push((scope[i].clone(), sub));
                    proof {
                        let w = declare_type_at(old(self)@, scope.deep_view(), i as int, scope@.len() as nat, name@, decl@);
                        assert(self@.modules =~~= w.modules);
                        assert(self@.types =~~= w.types);
                        assert(self@.constants =~~= w.constants);
                        assert(self@.keys =~~= w.keys);
                        assert(self@ =~= w);
                    }
                },
                Option::Some(j) => {
                    let mut entry: (String, IdlModule) = (
                        String::new(),
                        IdlModule::new(Option::None, 0),
                    );
                    self.modules.set_and_swap(j, &mut entry);
                    entry.1.declare_type_from(scope, i + 1, name, decl);
                    self.modules.set(j, entry);
                    proof {
                        let w = declare_type_at(old(self)@, scope.deep_view(), i as int, scope@.len() as nat, name@, decl@);
                        assert(self@.modules =~~= w.modules);
                        assert(self@.types =~~= w.types);
                        assert(self@.constants =~~= w.constants);
                        assert(self@.keys =~~= w.keys);
                        assert(self@ =~= w);
                    }
                },
            }
        }
    }

    /// Declare a constant at the end of a scope path, exactly as
    /// `declare_type` does for types.
    pub fn declare_const(&mut self, scope: &Vec<String>, name: String, decl: IdlConstDcl)
        ensures
            final(self)@ == declare_const_at(
                old(self)@,
                scope.deep_view(),
                0,
                scope@.len() as nat,
                name@,
                decl@,
            ),
    {
        self.declare_const_from(scope, 0, name, decl);
    }

    fn declare_const_from(&mut self, scope: &Vec<String>, i: usize, name: String, decl: IdlConstDcl)
        requires
            i <= scope.len(),
        ensures
            final(self)@ == declare_const_at(
                old(self)@,
                scope.deep_view(),
                i as int,
                scope@.len() as nat,
                name@,
                decl@,
            ),
        decreases scope.len() - i,
    {
        if i == scope.len() {
            match self.find_const_position(name.as_str()) {
                Option::Some(_j) => {},
                Option::None => {
                    self.constants.push((name, decl));
                    proof {
                        let w = declare_const_at(old(self)@, scope.deep_view(), i as int, scope@.len() as nat, name@, decl@);
                        assert(self@.modules =~~= w.modules);
                        assert(self@.types =~~= w.types);
                        assert(self@.constants =~~= w.constants);
                        assert(self@.keys =~~= w.keys);
                        assert(self@ =~= w);
                    }
                },
            }
        } else {
            match self.find_module_position(scope[i].as_str()) {
                Option::None => {
                    let mut sub = IdlModule::new(Option::Some(scope[i].clone()), scope.len());
                    sub.declare_const_from(scope, i + 1, name, decl);
                    self.modules.push((scope[i].clone(), sub));
                    proof {
                        let w = declare_const_at(old(self)@, scope.deep_view(), i as int, scope@.len() as nat, name@, decl@);
                        assert(self@.modules =~~= w.modules);
                        assert(self@.types =~~= w.types);
                        assert(self@.constants =~~= w.constants);
                        assert(self@.keys =~~= w.keys);
                        assert(self@ =~= w);
                    }
                },
                Option::Some(j) => {
                    let mut entry: (String, IdlModule) = (
                        String::new(),
                        IdlModule::new(Option::None, 0),
                    );
                    self.modules.set_and_swap(j, &mut entry);
                    entry.1.declare_const_from(scope, i + 1, name, decl);
                    self.modules.set(j, entry);
                    proof {
                        let w = declare_const_at(old(self)@, scope.deep_view(), i as int, scope@.len() as nat, name@, decl@);
                        assert(self@.modules =~~= w.modules);
                        assert(self@.types =~~= w.types);
                        assert(self@.constants =~~= w.constants);
                        assert(self@.keys =~~= w.keys);
                        assert(self@ =~= w);
                    }
                },
            }
        }
    }

    /// Whether some type declaration of this scope is a struct with
    /// this name.
    fn contains_struct_named(&self, sname: &str) -> (r: bool)
        ensures
            r == struct_found(self@.types, sname@),
    {
        let mut j: usize = 0;
        while j < self.types.len()
            invariant
                j <= self.types.len(),
                forall|k: int|
                    #![trigger self@.types[k]]
                    0 <= k < j ==> !is_matching_struct(self@.types[k].1, sname@),
            decreases self.types.len() - j,
        {
            match &self.types[j].1.0 {
                IdlTypeDclKind::StructDcl(n, _members, _flag) => {
                    if str_eq(n.as_str(), sname) {
                        proof {
                            assert(is_matching_struct(self@.types[j as int].1, sname@));
                        }
                        return true;
                    }
                },
                _ => {},
            }
            j = j + 1;
        }
        false
    }

    /// Whether the requested key name matches a member of some struct
    /// with this name in this scope.
    fn key_found_exec(&self, sname: &str, key: &String) -> (r: bool)
        ensures
            r == key_found(self@.types, sname@, key@),
    {
        let mut j: usize = 0;
        while j < self.types.len()
            invariant
                j <= self.types.len(),
                forall|k: int|
                    #![trigger self@.types[k]]
                    0 <= k < j ==> !key_in_kind(self@.types[k].1, sname@, key@),
            decreases self.types.len() - j,
        {
            match &self.types[j].1.0 {
                IdlTypeDclKind::StructDcl(n, members, _flag) => {
                    if str_eq(n.as_str(), sname) {
                        if member_named_exec(members, key) {
                            proof {
                                assert(key_in_kind(self@.types[j as int].1, sname@, key@));
                            }
                            return true;
                        }
                    }
                },
                _ => {},
            }
            j = j + 1;
        }
        false
    }

    /// Apply a key-list directive to this scope: mark the named struct
    /// as a topic and its named members as keys. The directive applies
    /// only when the struct exists here and every requested key matches
    /// some member; otherwise nothing is changed and the error names the
    /// requested keys. Unlike an apply-then-check ordering, a failed
    /// directive leaves no partial flags behind.
    pub fn set_topic_and_key_flags(&mut self, struct_name: &str, keys: &Vec<String>) -> (r: Result<
        (),
        IdlError,
    >)
        ensures
            keylist_applies(old(self)@.types, struct_name@, keys.deep_view()) ==> (r is Ok
                && final(self)@ == (ModuleV {
                types: mark_types(old(self)@.types, struct_name@, keys.deep_view()),
                ..old(self)@
            })),
            !keylist_applies(old(self)@.types, struct_name@, keys.deep_view()) ==> (final(self)@
                == old(self)@ && (r matches Result::Err(IdlError::KeyNotFound(s)) && s@
                == spec_join_comma(keys.deep_view()))),
    {
        let ghost sname = struct_name@;
        let ghost keysdv = keys.deep_view();
        let found = self.contains_struct_named(struct_name);
        let mut all = true;
        let mut t: usize = 0;
        while t < keys.len()
            invariant
                t <= keys.len(),
                keysdv == keys.deep_view(),
                sname == struct_name@,
                all ==> forall|u: int| 0 <= u < t ==> key_found(self@.types, sname, #[trigger] keysdv[u]),
                !all ==> !all_keys_found(self@.types, sname, keysdv),
            decreases keys.len() - t,
        {
            if !self.key_found_exec(struct_name, &keys[t]) {
                proof {
                    assert(keysdv[t as int] == keys@[t as int]@);
                    assert(!key_found(self@.types, sname, keysdv[t as int]));
                }
                all = false;
            }
            t = t + 1;
        }
        if found && all {
            let ghost orig = *self;
            let n = self.types.len();
            let mut i: usize = 0;
            while i < n
                invariant
                    i <= n,
                    n == self.types.len(),
                    self.id == orig.id,
                    self.level == orig.level,
                    self.modules@ == orig.modules@,
                    self.constants@ == orig.constants@,
                    self.keys@ == orig.keys@,
                    self.types@.len() == orig.types@.len(),
                    sname == struct_name@,
                    keysdv == keys.deep_view(),
                    forall|k: int| i <= k < n ==> self.types@[k] == orig.types@[k],
                    forall|k: int|
                        #![trigger self.types@[k]]
                        0 <= k < i ==> self.types@[k].0@ == orig.types@[k].0@
                            && type_dcl_kind_view(self.types@[k].1.0) == mark_kind(
                            type_dcl_kind_view(orig.types@[k].1.0),
                            sname,
                            keysdv,
                        ),
                decreases n - i,
            {
                let mut entry: (String, IdlTypeDcl) = (
                    String::new(),
                    IdlTypeDcl(IdlTypeDclKind::NoDecl),
                );
                self.types.set_and_swap(i, &mut entry);
                let (key0, dcl) = entry;
                let IdlTypeDcl(kind) = dcl;
                let new_kind = match kind {
                    IdlTypeDclKind::StructDcl(nm, members, flag) => {
                        if str_eq(nm.as_str(), struct_name) {
                            let members2 = mark_members_exec(members, keys);
                            IdlTypeDclKind::StructDcl(nm, members2, true)
                        } else {
                            IdlTypeDclKind::StructDcl(nm, members, flag)
                        }
                    },
                    other => other,
                };
                self.types.set(i, (key0, IdlTypeDcl(new_kind)));
                i = i + 1;
            }
            proof {
                assert(self@ =~~= (ModuleV {
                    types: mark_types(orig@.types, sname, keysdv),
                    ..orig@
                }));
                assert(orig@ == old(self)@);
            }
            Result::Ok(())
        } else {
            let joined = join_comma(keys);
            proof {
                if !found {
                    assert(!keylist_applies(self@.types, sname, keysdv));
                }
            }
            Result::Err(IdlError::KeyNotFound(joined))
        }
    }
}

/// A key-list directive applied at the end of a scope path: the scopes
/// along the path are created as walking to them does, and the directive
/// is then applied to the scope reached, transactionally.
pub open spec fn keylist_at(
    m: ModuleV,
    scope: Seq<Seq<char>>,
    i: int,
    level: nat,
    sname: Seq<char>,
    keys: Seq<Seq<char>>,
) -> ModuleV
    decreases scope.len() - i,
{
    if i < 0 || i >= scope.len() {
        if keylist_applies(m.types, sname, keys) {
            ModuleV { types: mark_types(m.types, sname, keys), ..m }
        } else {
            m
        }
    } else {
        let j = find_name_idx(m.modules, scope[i]);
        if j == -1 {
            ModuleV {
                modules: m.modules.push(
                    (
                        scope[i],
                        keylist_at(
                            new_module_v(Option::Some(scope[i]), level),
                            scope,
                            i + 1,
                            level,
                            sname,
                            keys,
                        ),
                    ),
                ),
                ..m
            }
        } else {
            ModuleV {
                modules: m.modules.update(
                    j,
                    (m.modules[j].0, keylist_at(m.modules[j].1, scope, i + 1, level, sname, keys)),
                ),
                ..m
            }
        }
    }
}

/// Whether a key-list directive applies at the end of a scope path: the
/// walk must reach an existing scope whose declarations satisfy it; a
/// scope created by the walk is empty and satisfies nothing.
pub open spec fn keylist_ok(
    m: ModuleV,
    scope: Seq<Seq<char>>,
    i: int,
    sname: Seq<char>,
    keys: Seq<Seq<char>>,
) -> bool
    decreases scope.len() - i,
{
    if i < 0 || i >= scope.len() {
        keylist_applies(m.types, sname, keys)
    } else {
        let j = find_name_idx(m.modules, scope[i]);
        if j == -1 {
            false
        } else {
            keylist_ok(m.modules[j].1, scope, i + 1, sname, keys)
        }
    }
}

impl IdlModule {
    /// Apply a key-list directive at the end of a scope path, creating
    /// the scopes along it as a walk does.
    pub fn apply_keylist(&mut self, scope: &Vec<String>, struct_name: &str, keys: &Vec<String>) -> (r:
        Result<(), IdlError>)
        ensures
            final(self)@ == keylist_at(
                old(self)@,
                scope.deep_view(),
                0,
                scope@.len() as nat,
                struct_name@,
                keys.deep_view(),
            ),
            keylist_ok(old(self)@, scope.deep_view(), 0, struct_name@, keys.deep_view()) ==> r
                is Ok,
            !keylist_ok(old(self)@, scope.deep_view(), 0, struct_name@, keys.deep_view()) ==> (r
                matches Result::Err(IdlError::KeyNotFound(s)) && s@ == spec_join_comma(
                keys.deep_view(),
            )),
    {
        self.apply_keylist_from(scope, 0, struct_name, keys)
    }

    fn apply_keylist_from(
        &mut self,
        scope: &Vec<String>,
        i: usize,
        struct_name: &str,
        keys: &Vec<String>,
    ) -> (r: Result<(), IdlError>)
        requires
            i <= scope.len(),
        ensures
            final(self)@ == keylist_at(
                old(self)@,
                scope.deep_view(),
                i as int,
                scope@.len() as nat,
                struct_name@,
                keys.deep_view(),
            ),
            keylist_ok(old(self)@, scope.deep_view(), i as int, struct_name@, keys.deep_view())
                ==> r is Ok,
            !keylist_ok(old(self)@, scope.deep_view(), i as int, struct_name@, keys.deep_view())
                ==> (r matches Result::Err(IdlError::KeyNotFound(s)) && s@ == spec_join_comma(
                keys.deep_view(),
            )),
        decreases scope.len() - i,
    {
        if i == scope.len() {
            self.set_topic_and_key_flags(struct_name, keys)
        } else {
            match self.find_module_position(scope[i].as_str()) {
                Option::None => {
                    let mut sub = IdlModule::new(Option::Some(scope[i].clone()), scope.len());
                    let r = sub.apply_keylist_from(scope, i + 1, struct_name, keys);
                    self.modules.push((scope[i].clone(), sub));
                    proof {
                        let w = keylist_at(
                            old(self)@,
                            scope.deep_view(),
                            i as int,
                            scope@.len() as nat,
                            struct_name@,
                            keys.deep_view(),
                        );
                        assert(self@.modules =~~= w.modules);
                        assert(self@.types =~~= w.types);
                        assert(self@.constants =~~= w.constants);
                        assert(self@.keys =~~= w.keys);
                        assert(self@ =~= w);
                    }
                    r
                },
                Option::Some(j) => {
                    let mut entry: (String, IdlModule) = (
                        String::new(),
                        IdlModule::new(Option::None, 0),
                    );
                    self.modules.set_and_swap(j, &mut entry);
                    let r = entry.1.apply_keylist_from(scope, i + 1, struct_name, keys);
                    self.modules.set(j, entry);
                    proof {
                        let w = keylist_at(
                            old(self)@,
                            scope.deep_view(),
                            i as int,
                            scope@.len() as nat,
                            struct_name@,
                            keys.deep_view(),
                        );
                        assert(self@.modules =~~= w.modules);
                        assert(self@.types =~~= w.types);
                        assert(self@.constants =~~= w.constants);
                        assert(self@.keys =~~= w.keys);
                        assert(self@ =~= w);
                    }
                    r
                },
            }
        }
    }
}

impl IdlTypeDcl {
    /// The fixed opcode-array length used when no descriptor is
    /// computed.
    pub fn get_num_ops() -> (r: usize)
        ensures
            r == 5,
    {
        5
    }
}

} // verus!
