//! Compiler core for an Interface Definition Language (IDL): a semantic
//! model of IDL type declarations, a scoped symbol table, an alignment
//! lattice for C-ABI struct layout, a constant-expression builder, and a
//! serialization-descriptor compiler that produces the opcode sequences
//! and key-descriptor tables used by generated marshalling code.
#![allow(unused_imports)]
use vstd::prelude::*;

pub mod alignment;
pub mod ast;
pub mod basic_types;
pub mod builder;
pub mod c_generator;
pub mod cyclonedds_meta;
pub mod model;
pub mod text;

use crate::builder::RuleKind;

verus! {

/// The failures that abort a compilation unit. A bad construct never
/// yields partial output: a descriptor table with a silently skipped
/// field would corrupt memory in the generated marshalling code.
#[derive(Debug)]
pub enum IdlError {
    /// A parse-tree shape the builder did not expect: a grammar-contract
    /// violation.
    InternalError,
    /// A node of this production was not expected here.
    UnexpectedItem(RuleKind),
    /// A node of this production was expected and not found.
    ExpectedItem(RuleKind),
    /// A failure described by a message.
    ErrorMesg(String),
    /// An included file could not be loaded.
    FileNotFound(String),
    /// A key-list directive named a struct or a key member that does not
    /// exist; the payload joins the requested key names with commas.
    KeyNotFound(String),
    /// A scoped name did not resolve to a declaration.
    UnresolvedScopedName,
    /// A construct that descriptor generation deliberately refuses:
    /// wide strings and characters, 128-bit floats, containers of
    /// containers, unions behind scoped names, or nesting beyond the
    /// supported depth.
    UnsupportedConstruct,
}

/// Model of a failure: the same cases with their text as characters.
#[verifier::ext_equal]
pub enum IdlErrV {
    InternalError,
    UnexpectedItem(RuleKind),
    ExpectedItem(RuleKind),
    ErrorMesg(Seq<char>),
    FileNotFound(Seq<char>),
    KeyNotFound(Seq<char>),
    UnresolvedScopedName,
    UnsupportedConstruct,
}

impl View for IdlError {
    type V = IdlErrV;

    open spec fn view(&self) -> IdlErrV {
        match self {
            IdlError::InternalError => IdlErrV::InternalError,
            IdlError::UnexpectedItem(k) => IdlErrV::UnexpectedItem(*k),
            IdlError::ExpectedItem(k) => IdlErrV::ExpectedItem(*k),
            IdlError::ErrorMesg(s) => IdlErrV::ErrorMesg(s@),
            IdlError::FileNotFound(s) => IdlErrV::FileNotFound(s@),
            IdlError::KeyNotFound(s) => IdlErrV::KeyNotFound(s@),
            IdlError::UnresolvedScopedName => IdlErrV::UnresolvedScopedName,
            IdlError::UnsupportedConstruct => IdlErrV::UnsupportedConstruct,
        }
    }
}

/// The executable unit result carries the modelled outcome.
pub open spec fn unit_res_matches(r: Result<(), IdlError>, s: Result<(), IdlErrV>) -> bool {
    match r {
        Result::Ok(()) => s is Ok,
        Result::Err(e) => s matches Result::Err(ev) && e@ == ev,
    }
}

/// Where included files come from: the one operation the compiler needs
/// from its surroundings. A failed load is fatal for the compilation
/// unit that asked for the include.
pub trait IdlLoader {
    fn load(&self, filename: &str) -> Result<String, IdlError>;
}

/// What a compiler run was asked to do: macro definitions, verbosity,
/// whether C is generated instead of the default target, the name of the
/// compiled file, and whether descriptors are generated in the default
/// target.
#[derive(Debug)]
pub struct Configuration {
    pub definition: std::collections::HashMap<String, String>,
    pub verbose: bool,
    pub generate_c: bool,
    pub idl_name: String,
    pub generate_descriptors: bool,
}

impl Configuration {
    /// A configuration with the given settings.
    pub fn new(
        defs: std::collections::HashMap<String, String>,
        verbose: bool,
        gen_c: bool,
        idl_name: String,
        generate_descriptors: bool,
    ) -> (r: Configuration)
        ensures
            r.definition == defs,
            r.verbose == verbose,
            r.generate_c == gen_c,
            r.idl_name == idl_name,
            r.generate_descriptors == generate_descriptors,
    {
        Configuration { definition: defs, verbose, generate_c: gen_c, idl_name, generate_descriptors }
    }
}

/// A placeholder preload step: nothing is loaded ahead of time.
pub fn load_idl(_config: &Configuration, _path: &str) -> (r: Result<String, IdlError>)
    ensures
        r matches Result::Ok(s) && s@ == Seq::<char>::empty(),
{
    Result::Ok(String::new())
}

} // verus!
