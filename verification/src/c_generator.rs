//! Naming helpers for the C target: the include-guard macro name of a
//! generated header and the flattened spelling of a scoped type name.
use crate::ast::IdlTypeDcl;
use crate::text::{join_sep, spec_join_sep};
use vstd::prelude::*;
use vstd::string::StringExecFns;

verus! {

/// The spacing of generated text, in spaces per nesting level.
pub const INDENTION: usize = 4;

/// The uppercase form of a string, exactly as the standard library's
/// case mapping produces it; it depends on the characters alone.
pub uninterp spec fn upper_of(s: Seq<char>) -> Seq<char>;

/// Relies on str::to_uppercase: the uppercase form of the characters,
/// a function of the input string alone.
#[verifier::external_body]
fn to_uppercase_string(s: &str) -> (r: String)
    ensures
        r@ == upper_of(s@),
{
    s.to_uppercase()
}

/// The include-guard macro name for a header generated from a file with
/// this stem.
pub fn header_macro_name(stem: &str) -> (r: String)
    ensures
        r@ == "_DDSL_"@ + upper_of(stem@) + "_H_"@,
{
    let mut out = String::new();
    out.append("_DDSL_");
    let upper = to_uppercase_string(stem);
    out.append(upper.as_str());
    out.append("_H_");
    out
}

/// The flattened C spelling of a name declared in a scope: the scope's
/// components and the name joined by underscores.
pub fn scoped_name(scope: &Vec<String>, id: &str) -> (r: String)
    ensures
        r@ == spec_join_sep(scope.deep_view(), "_"@) + "_"@ + id@,
{
    let mut name = join_sep(scope, "_");
    name.append("_");
    name.append(id);
    name
}

impl IdlTypeDcl {
    /// Print a struct declaration's C source file part: the header
    /// carries the whole declaration, so the source side emits nothing.
    pub fn write_c(&self, _out: &mut String, _scope: &Vec<String>)
        requires
            self@ is StructDcl,
        ensures
            final(_out)@ == old(_out)@,
    {
    }
}

} // verus!
