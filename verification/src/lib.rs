//! Reflection queries over SPIR-V shader modules.
//!
//! A caller hands in the words of a SPIR-V module with two option flags; the
//! reflection engine decodes it; and the library materializes the report —
//! entry points, their variables, and the full nested type of each — as a
//! stable owned tree behind a query handle. Enumerations are pure reads of
//! that tree, and destroying the query releases everything it owns at once.
use vstd::prelude::*;

pub mod engine;
pub mod layout;
pub mod materialize;
pub mod model;
pub mod query;
pub mod scan;

pub use model::{
    SqAccessType, SqBool32, SqDescriptorType, SqEntryPoint, SqImageArrangement, SqImageFormat,
    SqMatrixAxisOrder, SqMatrixType, SqReflectConfig, SqResult, SqScalarRepr, SqScalarType,
    SqSpirvQuery, SqStructMember, SqSubpassDataArrangement, SqType, SqVariable,
};
pub use query::{
    sqCreateReflectQuery, sqDestroyReflectQuery, sqEnumerateSpirvEntryPointVariables,
    sqEnumerateSpirvEntryPoints,
};

verus! {

/// The SPIR-V binary magic number, as it stands in the first word of a module.
pub open spec fn spirv_magic() -> u32 {
    0x07230203u32
}

/// A word stream is plausibly a SPIR-V module only if it holds at least the
/// five header words and starts with the magic number.
pub open spec fn header_ok(words: Seq<u32>) -> bool {
    words.len() >= 5 && words[0] == spirv_magic()
}

} // verus!
