//! The boundary to the reflection engine (the `spirq` crate).
//!
//! The engine decodes a SPIR-V module and reports its entry points. Everything
//! it reports is brought across the boundary as plain owned values — the
//! engine representation below — so that the rest of the library can be
//! verified against it. The outcome of a reflection call is a function of the
//! SPIR-V words and the two options alone, so it is given the two names
//! `reflect_status` and `reflect_entry_points`, and the one trusted call
//! `reflect_words` is specified with them.
use vstd::prelude::*;

use crate::model::{SqAccessType, SqDescriptorType, SqResult};
use spirq::ty::{MatrixAxisOrder, MatrixType, SampledImageType, ScalarType, StructMember, Type};
use spirq::{DescriptorBinding, DescriptorType, EntryPoint, InterfaceLocation, Variable};

verus! {

// ----------------------------------------------------------------------------
// The engine representation: what the engine reports, as plain owned values.

/// A scalar as the engine reports it.
#[derive(PartialEq, Eq, Debug)]
pub enum EngineScalar {
    Void,
    Boolean,
    Signed(u32),
    Unsigned(u32),
    Float(u32),
}

/// A struct member as the engine reports it.
#[derive(PartialEq, Eq, Debug)]
pub struct EngineMember {
    pub name: Option<String>,
    pub offset: usize,
    pub ty: EngineType,
}

/// A type tree as the engine reports it. Image dimensionality and format are
/// carried as the code words of the SPIR-V enumerations; a matrix carries the
/// engine's stride and axis order (absent when the module gave no layout
/// decoration, and row-major as a boolean). The engine's combined image
/// sampler converts to the sampled-image representation, since the model
/// distinguishes combination only in the descriptor class. `Opaque` stands
/// for the engine type variants that the result model does not carry (device
/// pointers and addresses, ray queries).
#[derive(PartialEq, Eq, Debug)]
pub enum EngineType {
    Scalar { scalar: EngineScalar },
    Vector { scalar: EngineScalar, nscalar: u32 },
    Matrix {
        scalar: EngineScalar,
        nrow: u32,
        ncolumn: u32,
        stride: Option<usize>,
        major_row: Option<bool>,
    },
    Image { scalar: EngineScalar, fmt_code: u32, dim_code: u32, is_arrayed: bool, is_multisampled: bool },
    SampledImage { scalar: EngineScalar, dim_code: u32, is_arrayed: bool, is_multisampled: bool },
    StorageImage { fmt_code: u32, dim_code: u32, is_arrayed: bool, is_multisampled: bool },
    Sampler,
    SubpassData { is_multisampled: bool },
    Array { proto_ty: Box<EngineType>, nrepeat: Option<u32>, stride: Option<usize> },
    Struct { name: Option<String>, members: Vec<EngineMember> },
    AccelStruct,
    Opaque,
}

/// A variable as the engine reports it.
#[derive(PartialEq, Eq, Debug)]
pub enum EngineVariable {
    Input { name: Option<String>, location: u32, component: u32, ty: EngineType },
    Output { name: Option<String>, location: u32, component: u32, ty: EngineType },
    Descriptor {
        name: Option<String>,
        set: u32,
        binding: u32,
        desc_ty: SqDescriptorType,
        ty: EngineType,
        nbind: u32,
    },
    PushConstant { name: Option<String>, ty: EngineType },
    SpecConstant { name: Option<String>, spec_id: u32, ty: EngineType },
}

/// An entry point as the engine reports it.
#[derive(PartialEq, Eq, Debug)]
pub struct EngineEntryPoint {
    pub name: String,
    pub vars: Vec<EngineVariable>,
}

// ----------------------------------------------------------------------------
// Declarations of the engine's own types, so they may stand in the signatures
// of the conversion helpers below.

#[verifier::external_type_specification]
#[verifier::external_body]
pub struct ExType(Type);

#[verifier::external_type_specification]
#[verifier::external_body]
pub struct ExScalarType(ScalarType);

#[verifier::external_type_specification]
#[verifier::external_body]
pub struct ExSampledImageType(SampledImageType);

#[verifier::external_type_specification]
#[verifier::external_body]
pub struct ExMatrixType(MatrixType);

#[verifier::external_type_specification]
#[verifier::external_body]
pub struct ExMatrixAxisOrder(MatrixAxisOrder);

#[verifier::external_type_specification]
#[verifier::external_body]
pub struct ExStructMember(StructMember);

#[verifier::external_type_specification]
#[verifier::external_body]
pub struct ExDescriptorType(DescriptorType);

#[verifier::external_type_specification]
#[verifier::external_body]
pub struct ExAccessType(spirq::AccessType);

#[verifier::external_type_specification]
#[verifier::external_body]
pub struct ExVariable(Variable);

#[verifier::external_type_specification]
#[verifier::external_body]
pub struct ExInterfaceLocation(InterfaceLocation);

#[verifier::external_type_specification]
#[verifier::external_body]
pub struct ExDescriptorBinding(DescriptorBinding);

#[verifier::external_type_specification]
#[verifier::external_body]
pub struct ExEntryPoint(EntryPoint);

// ----------------------------------------------------------------------------
// The names of the reflection outcome, and the one trusted call.

/// The status of reflecting the given words with the given options: `Success`,
/// or the classification of the engine's error.
pub uninterp spec fn reflect_status(words: Seq<u32>, ref_all_rscs: bool, combine_img_samplers: bool) -> SqResult;

/// The entry points that reflecting the given words with the given options
/// reports, in engine order, when `reflect_status` is `Success`.
pub uninterp spec fn reflect_entry_points(words: Seq<u32>, ref_all_rscs: bool, combine_img_samplers: bool) -> Seq<EngineEntryPoint>;

/// Relies on `spirq::ReflectConfig::reflect`: it decodes the words and reports
/// the entry points, or a `CorruptedSpirv` / `UnsupportedSpirv` error; its
/// outcome is a function of the words and the two options alone. The third
/// error variant, `MismatchedManifest`, never leaves `reflect`; it is mapped
/// to the corrupted classification.
///
/// The engine assumes of its input what the preconditions state, and does
/// not return on word streams that break them: an instruction head with a
/// zero count half makes its iterator slice out of range; a division or
/// remainder specialization-constant operation folds its operands eagerly
/// and does not return on a zero divisor; and a cycle among function-call
/// edges makes the per-entry-point resource walk, taken only when
/// `ref_all_rscs` is off, recurse without bound.
#[verifier::external_body]
pub(crate) fn reflect_words(words: &Vec<u32>, ref_all_rscs: bool, combine_img_samplers: bool) -> (r: Result<
    Vec<EngineEntryPoint>,
    SqResult,
>)
    requires
        crate::scan::wf_stream_from(words@, 5),
        crate::scan::spec_ops_safe_from(words@, 5),
        ref_all_rscs || crate::scan::rank_acyclic(
            crate::scan::call_edges_from(words@, 5, None),
        ),
    ensures
        r is Ok <==> reflect_status(words@, ref_all_rscs, combine_img_samplers)
            == SqResult::Success,
        (r matches Ok(eps) ==> eps@ == reflect_entry_points(
            words@,
            ref_all_rscs,
            combine_img_samplers,
        )),
        (r matches Err(e) ==> e == reflect_status(words@, ref_all_rscs, combine_img_samplers)),
{
    let res = spirq::ReflectConfig::new()
        .spv(words.as_slice())
        .ref_all_rscs(ref_all_rscs)
        .combine_img_samplers(combine_img_samplers)
        .reflect();
    match res {
        Ok(eps) => Ok(eps.into_iter().map(cvt_entry_point).collect()),
        Err(spirq::Error::CorruptedSpirv(_)) => Err(SqResult::ErrorCorruptedSpirv),
        Err(spirq::Error::UnsupportedSpirv(_)) => Err(SqResult::ErrorUnsupportedSpirv),
        Err(spirq::Error::MismatchedManifest) => Err(SqResult::ErrorCorruptedSpirv),
    }
}

// ----------------------------------------------------------------------------
// Conversion of the engine's values into the engine representation. Each
// helper moves fields one for one; none of them decides anything.

/// Converts `spirq::EntryPoint`: moves the name and converts each variable.
#[verifier::external_body]
fn cvt_entry_point(ep: EntryPoint) -> EngineEntryPoint {
    EngineEntryPoint { name: ep.name, vars: ep.vars.into_iter().map(cvt_var).collect() }
}

/// Converts `spirq::Variable`: one arm per variant, moving fields.
#[verifier::external_body]
fn cvt_var(v: Variable) -> EngineVariable {
    match v {
        Variable::Input { name, location, ty } => cvt_input(name, location, ty),
        Variable::Output { name, location, ty } => cvt_output(name, location, ty),
        Variable::Descriptor { name, desc_bind, desc_ty, ty, nbind } => cvt_desc_var(name, desc_bind, desc_ty, ty, nbind),
        Variable::PushConstant { name, ty } => EngineVariable::PushConstant { name, ty: cvt_ty(ty) },
        Variable::SpecConstant { name, spec_id, ty } => EngineVariable::SpecConstant { name, spec_id, ty: cvt_ty(ty) },
    }
}

/// Converts an input variable: reads `InterfaceLocation::loc` and `comp`.
#[verifier::external_body]
fn cvt_input(name: Option<String>, location: InterfaceLocation, ty: Type) -> EngineVariable {
    EngineVariable::Input { name, location: location.loc(), component: location.comp(), ty: cvt_ty(ty) }
}

/// Converts an output variable: reads `InterfaceLocation::loc` and `comp`.
#[verifier::external_body]
fn cvt_output(name: Option<String>, location: InterfaceLocation, ty: Type) -> EngineVariable {
    EngineVariable::Output { name, location: location.loc(), component: location.comp(), ty: cvt_ty(ty) }
}

/// Converts a descriptor variable: reads `DescriptorBinding::set` and `bind`.
#[verifier::external_body]
fn cvt_desc_var(name: Option<String>, desc_bind: DescriptorBinding, desc_ty: DescriptorType, ty: Type, nbind: u32) -> EngineVariable {
    EngineVariable::Descriptor {
        name,
        set: desc_bind.set(),
        binding: desc_bind.bind(),
        desc_ty: cvt_desc_ty(desc_ty),
        ty: cvt_ty(ty),
        nbind,
    }
}

/// Converts `spirq::DescriptorType`: one arm per variant.
#[verifier::external_body]
fn cvt_desc_ty(d: DescriptorType) -> SqDescriptorType {
    match d {
        DescriptorType::Sampler() => SqDescriptorType::Sampler,
        DescriptorType::CombinedImageSampler() => SqDescriptorType::CombinedImageSampler,
        DescriptorType::SampledImage() => SqDescriptorType::SampledImage,
        DescriptorType::StorageImage(a) => SqDescriptorType::StorageImage(cvt_access(a)),
        DescriptorType::UniformTexelBuffer() => SqDescriptorType::UniformTexelBuffer,
        DescriptorType::StorageTexelBuffer(a) => SqDescriptorType::StorageTexelBuffer(cvt_access(a)),
        DescriptorType::UniformBuffer() => SqDescriptorType::UniformBuffer,
        DescriptorType::StorageBuffer(a) => SqDescriptorType::StorageBuffer(cvt_access(a)),
        DescriptorType::InputAttachment(i) => SqDescriptorType::InputAttachment(i),
        DescriptorType::AccelStruct() => SqDescriptorType::AccelStruct,
    }
}

/// Converts `spirq::AccessType`: one arm per variant.
#[verifier::external_body]
fn cvt_access(a: spirq::AccessType) -> SqAccessType {
    match a {
        spirq::AccessType::ReadOnly => SqAccessType::ReadOnly,
        spirq::AccessType::WriteOnly => SqAccessType::WriteOnly,
        spirq::AccessType::ReadWrite => SqAccessType::ReadWrite,
    }
}

/// Converts `spirq::ty::Type`, first part: scalars, vectors, matrices, arrays.
#[verifier::external_body]
fn cvt_ty(t: Type) -> EngineType {
    match t {
        Type::Scalar(x) => EngineType::Scalar { scalar: cvt_scalar(x) },
        Type::Vector(x) => EngineType::Vector { scalar: cvt_scalar(x.scalar_ty), nscalar: x.nscalar },
        Type::Matrix(x) => cvt_matrix(x),
        Type::Array(x) => EngineType::Array { proto_ty: Box::new(cvt_ty(*x.proto_ty)), nrepeat: x.nrepeat, stride: x.stride },
        other => cvt_ty_img(other),
    }
}

/// Converts `spirq::ty::MatrixType`: reads the nested vector's scalar type
/// and lane count, the vector count, and moves the stride and axis order.
#[verifier::external_body]
fn cvt_matrix(m: MatrixType) -> EngineType {
    EngineType::Matrix {
        scalar: cvt_scalar(m.vec_ty.scalar_ty),
        nrow: m.vec_ty.nscalar,
        ncolumn: m.nvec,
        stride: m.stride,
        major_row: cvt_major(m.major),
    }
}

/// Converts `spirq::ty::MatrixAxisOrder`: one arm per variant.
#[verifier::external_body]
fn cvt_major(m: Option<MatrixAxisOrder>) -> Option<bool> {
    match m {
        Some(MatrixAxisOrder::RowMajor) => Some(true),
        Some(MatrixAxisOrder::ColumnMajor) => Some(false),
        None => None,
    }
}

/// Converts `spirq::ty::Type`, second part: the image variants.
#[verifier::external_body]
fn cvt_ty_img(t: Type) -> EngineType {
    match t {
        Type::Image(x) => EngineType::Image { scalar: cvt_scalar(x.scalar_ty), fmt_code: x.fmt as u32, dim_code: x.dim as u32, is_arrayed: x.is_array, is_multisampled: x.is_multisampled },
        Type::CombinedImageSampler(x) => cvt_sampled_img(x.sampled_img_ty),
        Type::SampledImage(x) => cvt_sampled_img(x),
        other => cvt_ty_rest(other),
    }
}

/// Converts `spirq::ty::Type`, last part: the remaining variants.
#[verifier::external_body]
fn cvt_ty_rest(t: Type) -> EngineType {
    match t {
        Type::StorageImage(x) => EngineType::StorageImage { fmt_code: x.fmt as u32, dim_code: x.dim as u32, is_arrayed: x.is_array, is_multisampled: x.is_multisampled },
        Type::Sampler() => EngineType::Sampler,
        Type::SubpassData(x) => EngineType::SubpassData { is_multisampled: x.is_multisampled },
        Type::Struct(x) => EngineType::Struct { name: x.name, members: x.members.into_iter().map(cvt_member).collect() },
        Type::AccelStruct() => EngineType::AccelStruct,
        _ => EngineType::Opaque,
    }
}

/// Converts `spirq::ty::SampledImageType`: reads its four fields.
#[verifier::external_body]
fn cvt_sampled_img(x: SampledImageType) -> EngineType {
    EngineType::SampledImage { scalar: cvt_scalar(x.scalar_ty), dim_code: x.dim as u32, is_arrayed: x.is_array, is_multisampled: x.is_multisampled }
}

/// Converts `spirq::ty::StructMember`: moves name, offset and type.
#[verifier::external_body]
fn cvt_member(m: StructMember) -> EngineMember {
    EngineMember { name: m.name, offset: m.offset, ty: cvt_ty(m.ty) }
}

/// Converts `spirq::ty::ScalarType`: one arm per variant.
#[verifier::external_body]
fn cvt_scalar(s: ScalarType) -> EngineScalar {
    match s {
        ScalarType::Void => EngineScalar::Void,
        ScalarType::Boolean => EngineScalar::Boolean,
        ScalarType::Signed(n) => EngineScalar::Signed(n),
        ScalarType::Unsigned(n) => EngineScalar::Unsigned(n),
        ScalarType::Float(n) => EngineScalar::Float(n),
    }
}

} // verus!
