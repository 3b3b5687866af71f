//! A signature-language compiler core: a parser for `def name: (Type, ...) -> Type`
//! declarations and a generator that emits the marshalling glue which moves values
//! between a dynamic scripting runtime and native compiled functions.
//!
//! The parser turns source text into an ordered sequence of [`decl::FuncDef`]
//! records; the generator emits, per declaration, the argument declarations,
//! runtime-value construction lists, buffer-decoding preambles and return-value
//! adaptations that the glue needs, in both the export and the import direction.

pub mod decl;
pub mod gen;
pub mod laws;
pub mod parser;
pub mod text;
pub mod value;
