//! The table of basic wire types: for each primitive IDL type its C
//! spelling, its wire-type and wire-subtype opcode constants, its
//! alignment class, and its tag in the legacy metadata format.
use crate::alignment::{spec_value, Alignment, AlignmentType};
use crate::ast::IdlModule;
use vstd::prelude::*;
use vstd::string::StringExecFns;

verus! {

/// The basic wire types.
#[derive(Clone, Copy, PartialEq, Eq, Structural, Debug)]
pub enum BType {
    Boolean,
    Octet,
    Char,
    Short,
    UShort,
    Long,
    ULong,
    LongLong,
    ULongLong,
    Float,
    Double,
    Str,
}

/// The C spelling of a basic type.
pub open spec fn spec_ctype(t: BType) -> Seq<char> {
    match t {
        BType::Boolean => "bool"@,
        BType::Octet => "uint8_t"@,
        BType::Char => "char"@,
        BType::Short => "int16_t"@,
        BType::UShort => "uint16_t"@,
        BType::Long => "int32_t"@,
        BType::ULong => "uint32_t"@,
        BType::LongLong => "int64_t"@,
        BType::ULongLong => "uint64_t"@,
        BType::Float => "float"@,
        BType::Double => "double"@,
        BType::Str => "char *"@,
    }
}

/// The wire-type opcode constant of a basic type.
pub open spec fn spec_op(t: BType) -> Seq<char> {
    match t {
        BType::Boolean => "DDS_OP_TYPE_BOO"@,
        BType::Octet => "DDS_OP_TYPE_1BY"@,
        BType::Char => "DDS_OP_TYPE_1BY | DDS_OP_FLAG_SGN"@,
        BType::Short => "DDS_OP_TYPE_2BY | DDS_OP_FLAG_SGN"@,
        BType::UShort => "DDS_OP_TYPE_2BY"@,
        BType::Long => "DDS_OP_TYPE_4BY | DDS_OP_FLAG_SGN"@,
        BType::ULong => "DDS_OP_TYPE_4BY"@,
        BType::LongLong => "DDS_OP_TYPE_8BY | DDS_OP_FLAG_SGN"@,
        BType::ULongLong => "DDS_OP_TYPE_8BY"@,
        BType::Float => "DDS_OP_TYPE_4BY | DDS_OP_FLAG_FP"@,
        BType::Double => "DDS_OP_TYPE_8BY | DDS_OP_FLAG_FP"@,
        BType::Str => "DDS_OP_TYPE_STR"@,
    }
}

/// The wire-subtype opcode constant of a basic type, used when it is the
/// element of a sequence or array.
pub open spec fn spec_subop(t: BType) -> Seq<char> {
    match t {
        BType::Boolean => "DDS_OP_SUBTYPE_BOO"@,
        BType::Octet => "DDS_OP_SUBTYPE_1BY"@,
        BType::Char => "DDS_OP_SUBTYPE_1BY | DDS_OP_FLAG_SGN"@,
        BType::Short => "DDS_OP_SUBTYPE_2BY | DDS_OP_FLAG_SGN"@,
        BType::UShort => "DDS_OP_SUBTYPE_2BY"@,
        BType::Long => "DDS_OP_SUBTYPE_4BY | DDS_OP_FLAG_SGN"@,
        BType::ULong => "DDS_OP_SUBTYPE_4BY"@,
        BType::LongLong => "DDS_OP_SUBTYPE_8BY | DDS_OP_FLAG_SGN"@,
        BType::ULongLong => "DDS_OP_SUBTYPE_8BY"@,
        BType::Float => "DDS_OP_SUBTYPE_4BY | DDS_OP_FLAG_FP"@,
        BType::Double => "DDS_OP_SUBTYPE_8BY | DDS_OP_FLAG_FP"@,
        BType::Str => "DDS_OP_SUBTYPE_STR"@,
    }
}

/// The tag of a basic type in the legacy metadata format.
pub open spec fn spec_xml_tag(t: BType) -> Seq<char> {
    match t {
        BType::Boolean => "Boolean"@,
        BType::Octet => "Octet"@,
        BType::Char => "Char"@,
        BType::Short => "Short"@,
        BType::UShort => "UShort"@,
        BType::Long => "Long"@,
        BType::ULong => "ULong"@,
        BType::LongLong => "LongLong"@,
        BType::ULongLong => "ULongLong"@,
        BType::Float => "Float"@,
        BType::Double => "Double"@,
        BType::Str => "String"@,
    }
}

/// The alignment class of a basic type.
pub open spec fn spec_btype_align(t: BType) -> AlignmentType {
    match t {
        BType::Boolean => AlignmentType::Bool,
        BType::Octet => AlignmentType::One,
        BType::Char => AlignmentType::One,
        BType::Short => AlignmentType::Two,
        BType::UShort => AlignmentType::Two,
        BType::Long => AlignmentType::Four,
        BType::ULong => AlignmentType::Four,
        BType::LongLong => AlignmentType::Eight,
        BType::ULongLong => AlignmentType::Eight,
        BType::Float => AlignmentType::Four,
        BType::Double => AlignmentType::Eight,
        BType::Str => AlignmentType::Ptr,
    }
}

/// The key size of a basic type: a boolean key takes one byte, a string
/// key has no fixed size, any other key takes its alignment's value.
pub open spec fn spec_key_size(t: BType) -> int {
    match t {
        BType::Boolean => 1,
        BType::Str => -1,
        _ => spec_value(spec_btype_align(t)) as int,
    }
}

/// An optional key flag, with the separator that precedes it.
pub open spec fn key_flag(is_key: bool) -> Seq<char> {
    if is_key {
        " | DDS_OP_FLAG_KEY"@
    } else {
        Seq::empty()
    }
}

/// One address opcode line for a field of a basic type: the address tag,
/// the wire-type constant, the optional key flag, and the field's offset
/// within the enclosing struct.
pub open spec fn meta_op_line(
    op: Seq<char>,
    is_key: bool,
    sname: Seq<char>,
    fname: Seq<char>,
) -> Seq<char> {
    "DDS_OP_ADR | "@ + op + " "@ + key_flag(is_key) + " , offsetof!("@ + sname + ","@ + fname
        + ") as u32"@
}

/// Append an address opcode line to a string.
pub fn push_meta_op_line(out: &mut String, op: &str, is_key: bool, sname: &str, fname: &str)
    ensures
        final(out)@ == old(out)@ + meta_op_line(op@, is_key, sname@, fname@),
{
    out.append("DDS_OP_ADR | ");
    out.append(op);
    out.append(" ");
    if is_key {
        out.append(" | DDS_OP_FLAG_KEY");
    }
    out.append(" , offsetof!(");
    out.append(sname);
    out.append(",");
    out.append(fname);
    out.append(") as u32");
}

/// One entry of the basic-type table. Built only by its constructors,
/// which keep the derived fields consistent with the basic type (`wf`).
pub struct BasicType {
    basic_type: BType,
    ctype: &'static str,
    op: &'static str,
    subop: &'static str,
    align: Alignment,
    xml: &'static str,
}

impl BasicType {
    /// The basic type this entry describes.
    pub closed spec fn btype(self) -> BType {
        self.basic_type
    }

    /// The derived fields agree with the basic type.
    pub open spec fn wf(self) -> bool {
        &&& self.ctype_spec() == spec_ctype(self.btype())
        &&& self.op_spec() == spec_op(self.btype())
        &&& self.subop_spec() == spec_subop(self.btype())
        &&& self.xml_spec() == spec_xml_tag(self.btype())
        &&& self.align_spec().wf()
        &&& self.align_spec().alignment_type() == spec_btype_align(self.btype())
    }

    /// The stored C spelling.
    pub closed spec fn ctype_spec(self) -> Seq<char> {
        self.ctype@
    }

    /// The stored wire-type constant.
    pub closed spec fn op_spec(self) -> Seq<char> {
        self.op@
    }

    /// The stored wire-subtype constant.
    pub closed spec fn subop_spec(self) -> Seq<char> {
        self.subop@
    }

    /// The stored metadata tag.
    pub closed spec fn xml_spec(self) -> Seq<char> {
        self.xml@
    }

    /// The stored alignment.
    pub closed spec fn align_spec(self) -> Alignment {
        self.align
    }

    /// The table entry of the boolean type.
    pub fn new_boolean() -> (r: Self)
        ensures
            r.btype() == BType::Boolean,
            r.wf(),
    {
        BasicType {
            basic_type: BType::Boolean,
            ctype: "bool",
            op: "DDS_OP_TYPE_BOO",
            subop: "DDS_OP_SUBTYPE_BOO",
            align: Alignment::new(AlignmentType::Bool),
            xml: "Boolean",
        }
    }

    /// The table entry of the octet type.
    pub fn new_octet() -> (r: Self)
        ensures
            r.btype() == BType::Octet,
            r.wf(),
    {
        BasicType {
            basic_type: BType::Octet,
            ctype: "uint8_t",
            op: "DDS_OP_TYPE_1BY",
            subop: "DDS_OP_SUBTYPE_1BY",
            align: Alignment::new(AlignmentType::One),
            xml: "Octet",
        }
    }

    /// The table entry of the character type.
    pub fn new_char() -> (r: Self)
        ensures
            r.btype() == BType::Char,
            r.wf(),
    {
        BasicType {
            basic_type: BType::Char,
            ctype: "char",
            op: "DDS_OP_TYPE_1BY | DDS_OP_FLAG_SGN",
            subop: "DDS_OP_SUBTYPE_1BY | DDS_OP_FLAG_SGN",
            align: Alignment::new(AlignmentType::One),
            xml: "Char",
        }
    }

    /// The table entry of the short type.
    pub fn new_short() -> (r: Self)
        ensures
            r.btype() == BType::Short,
            r.wf(),
    {
        BasicType {
            basic_type: BType::Short,
            ctype: "int16_t",
            op: "DDS_OP_TYPE_2BY | DDS_OP_FLAG_SGN",
            subop: "DDS_OP_SUBTYPE_2BY | DDS_OP_FLAG_SGN",
            align: Alignment::new(AlignmentType::Two),
            xml: "Short",
        }
    }

    /// The table entry of the unsigned short type.
    pub fn new_ushort() -> (r: Self)
        ensures
            r.btype() == BType::UShort,
            r.wf(),
    {
        BasicType {
            basic_type: BType::UShort,
            ctype: "uint16_t",
            op: "DDS_OP_TYPE_2BY",
            subop: "DDS_OP_SUBTYPE_2BY",
            align: Alignment::new(AlignmentType::Two),
            xml: "UShort",
        }
    }

    /// The table entry of the long type.
    pub fn new_long() -> (r: Self)
        ensures
            r.btype() == BType::Long,
            r.wf(),
    {
        BasicType {
            basic_type: BType::Long,
            ctype: "int32_t",
            op: "DDS_OP_TYPE_4BY | DDS_OP_FLAG_SGN",
            subop: "DDS_OP_SUBTYPE_4BY | DDS_OP_FLAG_SGN",
            align: Alignment::new(AlignmentType::Four),
            xml: "Long",
        }
    }

    /// The table entry of the unsigned long type.
    pub fn new_ulong() -> (r: Self)
        ensures
            r.btype() == BType::ULong,
            r.wf(),
    {
        BasicType {
            basic_type: BType::ULong,
            ctype: "uint32_t",
            op: "DDS_OP_TYPE_4BY",
            subop: "DDS_OP_SUBTYPE_4BY",
            align: Alignment::new(AlignmentType::Four),
            xml: "ULong",
        }
    }

    /// The table entry of the long long type.
    pub fn new_longlong() -> (r: Self)
        ensures
            r.btype() == BType::LongLong,
            r.wf(),
    {
        BasicType {
            basic_type: BType::LongLong,
            ctype: "int64_t",
            op: "DDS_OP_TYPE_8BY | DDS_OP_FLAG_SGN",
            subop: "DDS_OP_SUBTYPE_8BY | DDS_OP_FLAG_SGN",
            align: Alignment::new(AlignmentType::Eight),
            xml: "LongLong",
        }
    }

    /// The table entry of the unsigned long long type.
    pub fn new_ulonglong() -> (r: Self)
        ensures
            r.btype() == BType::ULongLong,
            r.wf(),
    {
        BasicType {
            basic_type: BType::ULongLong,
            ctype: "uint64_t",
            op: "DDS_OP_TYPE_8BY",
            subop: "DDS_OP_SUBTYPE_8BY",
            align: Alignment::new(AlignmentType::Eight),
            xml: "ULongLong",
        }
    }

    /// The table entry of the float type.
    pub fn new_float() -> (r: Self)
        ensures
            r.btype() == BType::Float,
            r.wf(),
    {
        BasicType {
            basic_type: BType::Float,
            ctype: "float",
            op: "DDS_OP_TYPE_4BY | DDS_OP_FLAG_FP",
            subop: "DDS_OP_SUBTYPE_4BY | DDS_OP_FLAG_FP",
            align: Alignment::new(AlignmentType::Four),
            xml: "Float",
        }
    }

    /// The table entry of the double type.
    pub fn new_double() -> (r: Self)
        ensures
            r.btype() == BType::Double,
            r.wf(),
    {
        BasicType {
            basic_type: BType::Double,
            ctype: "double",
            op: "DDS_OP_TYPE_8BY | DDS_OP_FLAG_FP",
            subop: "DDS_OP_SUBTYPE_8BY | DDS_OP_FLAG_FP",
            align: Alignment::new(AlignmentType::Eight),
            xml: "Double",
        }
    }

    /// The table entry of the string type.
    pub fn new_string() -> (r: Self)
        ensures
            r.btype() == BType::Str,
            r.wf(),
    {
        BasicType {
            basic_type: BType::Str,
            ctype: "char *",
            op: "DDS_OP_TYPE_STR",
            subop: "DDS_OP_SUBTYPE_STR",
            align: Alignment::new(AlignmentType::Ptr),
            xml: "String",
        }
    }

    /// The single address opcode of a field of this basic type.
    pub fn get_meta_op(
        &self,
        name: &str,
        struct_name: &str,
        is_key: bool,
        _root: &IdlModule,
    ) -> (r: Vec<String>)
        ensures
            r@.len() == 1,
            r@[0]@ == meta_op_line(self.op_spec(), is_key, struct_name@, name@),
    {
        let mut line = String::new();
        push_meta_op_line(&mut line, self.op, is_key, struct_name, name);
        let mut r: Vec<String> = Vec::new();
        r.push(line);
        r
    }

    /// The wire-subtype constant.
    pub fn get_sub_op(&self, _root: &IdlModule) -> (r: String)
        ensures
            r@ == self.subop_spec(),
    {
        self.subop.to_owned()
    }

    /// The wire-type constant.
    pub fn get_op(&self, _root: &IdlModule) -> (r: String)
        ensures
            r@ == self.op_spec(),
    {
        self.op.to_owned()
    }

    /// The C spelling.
    pub fn get_c_type(&self, _root: &IdlModule) -> (r: String)
        ensures
            r@ == self.ctype_spec(),
    {
        self.ctype.to_owned()
    }

    /// The tag in the legacy metadata format, as an element.
    pub fn get_xml(&self, _root: &IdlModule) -> (r: String)
        ensures
            r@ == "<"@ + self.xml_spec() + "/>"@,
    {
        let mut s = String::new();
        s.append("<");
        s.append(self.xml);
        s.append("/>");
        s
    }

    /// The key size of this basic type.
    pub fn get_key_size(&self, _root: &IdlModule) -> (r: i32)
        requires
            self.wf(),
        ensures
            r as int == spec_key_size(self.btype()),
    {
        match self.basic_type {
            BType::Boolean => 1,
            BType::Str => -1,
            _ => self.align.get_value(),
        }
    }

    /// Every basic type contributes two opcodes.
    pub fn get_meta_op_size(&self, _root: &IdlModule) -> (r: usize)
        ensures
            r == 2,
    {
        2
    }

    /// The alignment class of this basic type.
    pub fn get_alignment(&self, _root: &IdlModule) -> (r: Alignment)
        requires
            self.wf(),
        ensures
            r.wf(),
            r.alignment_type() == spec_btype_align(self.btype()),
    {
        self.align
    }

    /// A basic type never holds a union.
    pub fn get_contains_union(&self, _root: &IdlModule) -> (r: bool)
        ensures
            !r,
    {
        false
    }
}

} // verus!
