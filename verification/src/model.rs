//! The reflection-result data model: the stable tree of entry points,
//! variables and types that a query owns, together with its spec-level views.
use vstd::prelude::*;

verus! {

/// Fixed-width boolean as it crosses the caller boundary.
#[derive(Clone, Copy, PartialEq, Eq, Structural, Debug)]
pub enum SqBool32 {
    False,
    True,
}

/// Status of a reflection request.
#[derive(Clone, Copy, PartialEq, Eq, Structural, Debug)]
pub enum SqResult {
    Success,
    ErrorCorruptedSpirv,
    ErrorUnsupportedSpirv,
}

/// Caller-supplied configuration: the SPIR-V words and the two option flags.
pub struct SqReflectConfig {
    pub spirv: Vec<u32>,
    pub ref_all_rscs: SqBool32,
    pub combine_img_samplers: SqBool32,
}

/// How a resource may be accessed by the shader.
#[derive(Clone, Copy, PartialEq, Eq, Structural, Debug)]
pub enum SqAccessType {
    ReadOnly,
    WriteOnly,
    ReadWrite,
}

/// Descriptor classification, mirroring the Vulkan descriptor types.
#[derive(Clone, Copy, PartialEq, Eq, Structural, Debug)]
pub enum SqDescriptorType {
    Sampler,
    CombinedImageSampler,
    SampledImage,
    StorageImage(SqAccessType),
    UniformTexelBuffer,
    StorageTexelBuffer(SqAccessType),
    UniformBuffer,
    StorageBuffer(SqAccessType),
    InputAttachment(u32),
    AccelStruct,
}

/// Representation of a scalar value.
#[derive(Clone, Copy, PartialEq, Eq, Structural, Debug)]
pub enum SqScalarRepr {
    Boolean,
    SignedInt,
    UnsignedInt,
    SignedFloat,
}

/// A scalar type: its representation and its width in bytes.
#[derive(Clone, Copy, PartialEq, Eq, Structural, Debug)]
pub struct SqScalarType {
    pub repr: SqScalarRepr,
    pub nbyte: u32,
}

/// Axis order of a matrix.
#[derive(Clone, Copy, PartialEq, Eq, Structural, Debug)]
pub enum SqMatrixAxisOrder {
    ColumnMajor,
    RowMajor,
}

/// A matrix layout: vector scalar type, vector count, stride and axis order.
#[derive(Clone, Copy, PartialEq, Eq, Structural, Debug)]
pub struct SqMatrixType {
    pub vec_ty: SqScalarType,
    pub nvec: u32,
    pub stride: usize,
    pub major: SqMatrixAxisOrder,
}

/// Image format, mirroring the SPIR-V image format enumeration.
#[derive(Clone, Copy, PartialEq, Eq, Structural, Debug)]
pub enum SqImageFormat {
    Rgba32f,
    Rgba16f,
    R32f,
    Rgba8,
    Rgba8Snorm,
    Rg32f,
    Rg16f,
    R11fG11fB10f,
    R16f,
    Rgba16,
    Rgb10A2,
    Rg16,
    Rg8,
    R16,
    R8,
    Rgba16Snorm,
    Rg16Snorm,
    Rg8Snorm,
    R16Snorm,
    R8Snorm,
    Rgba32i,
    Rgba16i,
    Rgba8i,
    R32i,
    Rg32i,
    Rg16i,
    Rg8i,
    R16i,
    R8i,
    Rgba32ui,
    Rgba16ui,
    Rgba8ui,
    R32ui,
    Rgb10a2ui,
    Rg32ui,
    Rg16ui,
    Rg8ui,
    R16ui,
    R8ui,
}

/// How an image is arranged: dimensionality, arraying and multisampling.
#[derive(Clone, Copy, PartialEq, Eq, Structural, Debug)]
pub enum SqImageArrangement {
    Image1D,
    Image2D,
    Image2DMS,
    Image3D,
    CubeMap,
    Image1DArray,
    Image2DArray,
    Image2DMSArray,
    CubeMapArray,
    Image2DRect,
    ImageBuffer,
}

/// Multisampling state of a subpass data attachment.
#[derive(Clone, Copy, PartialEq, Eq, Structural, Debug)]
pub enum SqSubpassDataArrangement {
    SubpassData,
    SubpassDataMS,
}

/// A member of a struct type: name, byte offset and the member's type.
#[derive(PartialEq, Eq, Debug)]
pub struct SqStructMember {
    pub name: String,
    pub offset: usize,
    pub ty: Box<SqType>,
}

/// The closed, recursive type tree of the reflection result.
///
/// An element count of zero on `Array` denotes a runtime-sized array.
#[derive(PartialEq, Eq, Debug)]
pub enum SqType {
    Void,
    Numeric { scalar_ty: SqScalarType, nlane: u32 },
    Matrix { scalar_ty: SqScalarType, nrow: u32, ncolumn: u32, stride: usize, major: SqMatrixAxisOrder },
    Image { scalar_ty: SqScalarType, fmt: SqImageFormat, arng: SqImageArrangement },
    SampledImage { scalar_ty: SqScalarType, is_depth: SqBool32, arng: SqImageArrangement },
    Sampler,
    SubpassData { arng: SqSubpassDataArrangement },
    Array { proto_ty: Box<SqType>, nelem: u32, stride: usize },
    Struct { name: String, members: Vec<SqStructMember> },
    AccelStruct,
}

/// A variable of an entry point.
///
/// `nbind == 0` on a descriptor denotes an unbounded binding array.
#[derive(PartialEq, Eq, Debug)]
pub enum SqVariable {
    Input { name: String, location: u32, component: u32, ty: Box<SqType> },
    Output { name: String, location: u32, component: u32, ty: Box<SqType> },
    Descriptor {
        name: String,
        binding: u32,
        set: u32,
        desc_ty: SqDescriptorType,
        ty: Box<SqType>,
        nbind: u32,
    },
    PushConstant { name: String, ty: Box<SqType> },
    SpecConstant { name: String, spec_id: u32, ty: Box<SqType> },
}

/// An entry point: its name, its variables in engine-reported order, the byte
/// size of the fixed portion of its push-constant layout, and the stride of a
/// trailing runtime-sized array of that layout (zero if none).
#[derive(PartialEq, Eq, Debug)]
pub struct SqEntryPoint {
    pub name: String,
    pub vars: Vec<SqVariable>,
    pub base_size: usize,
    pub dyn_stride: usize,
}

/// A successfully created reflection query: it owns every entry point, and
/// through them every variable, type and string of the result. Dropping the
/// query releases all of them at once; the handle is consumed by
/// `sqDestroyReflectQuery` so a destroyed query cannot be used again.
pub struct SqSpirvQuery {
    pub(crate) entry_points: Vec<SqEntryPoint>,
}

// ----------------------------------------------------------------------------
// Spec-level views of the recursive part of the model.

/// Spec view of a struct member.
#[verifier::ext_equal]
pub struct MemberView {
    pub name: Seq<char>,
    pub offset: usize,
    pub ty: TypeView,
}

/// Spec view of a type tree.
#[verifier::ext_equal]
pub enum TypeView {
    Void,
    Numeric { scalar_ty: SqScalarType, nlane: u32 },
    Matrix { scalar_ty: SqScalarType, nrow: u32, ncolumn: u32, stride: usize, major: SqMatrixAxisOrder },
    Image { scalar_ty: SqScalarType, fmt: SqImageFormat, arng: SqImageArrangement },
    SampledImage { scalar_ty: SqScalarType, is_depth: SqBool32, arng: SqImageArrangement },
    Sampler,
    SubpassData { arng: SqSubpassDataArrangement },
    Array { proto_ty: Box<TypeView>, nelem: u32, stride: usize },
    Struct { name: Seq<char>, members: Seq<MemberView> },
    AccelStruct,
}

/// Spec view of a variable.
#[verifier::ext_equal]
pub enum VariableView {
    Input { name: Seq<char>, location: u32, component: u32, ty: TypeView },
    Output { name: Seq<char>, location: u32, component: u32, ty: TypeView },
    Descriptor {
        name: Seq<char>,
        binding: u32,
        set: u32,
        desc_ty: SqDescriptorType,
        ty: TypeView,
        nbind: u32,
    },
    PushConstant { name: Seq<char>, ty: TypeView },
    SpecConstant { name: Seq<char>, spec_id: u32, ty: TypeView },
}

/// Spec view of an entry point.
#[verifier::ext_equal]
pub struct EntryPointView {
    pub name: Seq<char>,
    pub vars: Seq<VariableView>,
    pub base_size: usize,
    pub dyn_stride: usize,
}

pub open spec fn member_view(m: SqStructMember) -> MemberView
    decreases m, 0int,
{
    MemberView { name: m.name@, offset: m.offset, ty: type_view(*m.ty) }
}

/// View of the members of a struct from index `i` on.
pub open spec fn members_view_from(members: Vec<SqStructMember>, i: int) -> Seq<MemberView>
    decreases members, members@.len() - i,
{
    if i < 0 || i >= members@.len() {
        Seq::empty()
    } else {
        seq![member_view(members@[i])] + members_view_from(members, i + 1)
    }
}

pub open spec fn members_view(members: Vec<SqStructMember>) -> Seq<MemberView>
    decreases members, members@.len() + 1,
{
    members_view_from(members, 0)
}

pub open spec fn type_view(t: SqType) -> TypeView
    decreases t, 0int,
{
    match t {
        SqType::Void => TypeView::Void,
        SqType::Numeric { scalar_ty, nlane } => TypeView::Numeric { scalar_ty, nlane },
        SqType::Matrix { scalar_ty, nrow, ncolumn, stride, major } => TypeView::Matrix {
            scalar_ty,
            nrow,
            ncolumn,
            stride,
            major,
        },
        SqType::Image { scalar_ty, fmt, arng } => TypeView::Image { scalar_ty, fmt, arng },
        SqType::SampledImage { scalar_ty, is_depth, arng } => TypeView::SampledImage {
            scalar_ty,
            is_depth,
            arng,
        },
        SqType::Sampler => TypeView::Sampler,
        SqType::SubpassData { arng } => TypeView::SubpassData { arng },
        SqType::Array { proto_ty, nelem, stride } => TypeView::Array {
            proto_ty: Box::new(type_view(*proto_ty)),
            nelem,
            stride,
        },
        SqType::Struct { name, members } => TypeView::Struct {
            name: name@,
            members: members_view(members),
        },
        SqType::AccelStruct => TypeView::AccelStruct,
    }
}

pub open spec fn variable_view(v: SqVariable) -> VariableView {
    match v {
        SqVariable::Input { name, location, component, ty } => VariableView::Input {
            name: name@,
            location,
            component,
            ty: type_view(*ty),
        },
        SqVariable::Output { name, location, component, ty } => VariableView::Output {
            name: name@,
            location,
            component,
            ty: type_view(*ty),
        },
        SqVariable::Descriptor { name, binding, set, desc_ty, ty, nbind } => {
            VariableView::Descriptor {
                name: name@,
                binding,
                set,
                desc_ty,
                ty: type_view(*ty),
                nbind,
            }
        },
        SqVariable::PushConstant { name, ty } => VariableView::PushConstant {
            name: name@,
            ty: type_view(*ty),
        },
        SqVariable::SpecConstant { name, spec_id, ty } => VariableView::SpecConstant {
            name: name@,
            spec_id,
            ty: type_view(*ty),
        },
    }
}

/// View of a whole variable list, in order.
pub open spec fn vars_view(vars: Vec<SqVariable>) -> Seq<VariableView> {
    Seq::new(vars@.len(), |i: int| variable_view(vars@[i]))
}

pub open spec fn entry_point_view(ep: SqEntryPoint) -> EntryPointView {
    EntryPointView {
        name: ep.name@,
        vars: vars_view(ep.vars),
        base_size: ep.base_size,
        dyn_stride: ep.dyn_stride,
    }
}

/// View of a whole entry-point list, in order.
pub open spec fn eps_view(eps: Vec<SqEntryPoint>) -> Seq<EntryPointView> {
    Seq::new(eps@.len(), |i: int| entry_point_view(eps@[i]))
}

/// `members_view_from` walks an index range, so its length and its elements
/// follow by induction.
pub proof fn lemma_members_view_from(members: Vec<SqStructMember>, i: int)
    requires
        0 <= i <= members@.len(),
    ensures
        members_view_from(members, i).len() == members@.len() - i,
        forall|j: int|
            i <= j < members@.len() ==> members_view_from(members, i)[j - i] == member_view(
                members@[j],
            ),
    decreases members@.len() - i,
{
    if i < members@.len() {
        lemma_members_view_from(members, i + 1);
    }
}

/// The view of a member list has the same length, and views each member.
pub proof fn lemma_members_view(members: Vec<SqStructMember>)
    ensures
        members_view(members).len() == members@.len(),
        forall|j: int|
            0 <= j < members@.len() ==> members_view(members)[j] == member_view(members@[j]),
{
    lemma_members_view_from(members, 0);
}

impl View for SqType {
    type V = TypeView;

    open spec fn view(&self) -> TypeView {
        type_view(*self)
    }
}

impl View for SqVariable {
    type V = VariableView;

    open spec fn view(&self) -> VariableView {
        variable_view(*self)
    }
}

impl View for SqEntryPoint {
    type V = EntryPointView;

    open spec fn view(&self) -> EntryPointView {
        entry_point_view(*self)
    }
}

impl View for SqSpirvQuery {
    type V = Seq<EntryPointView>;

    closed spec fn view(&self) -> Seq<EntryPointView> {
        eps_view(self.entry_points)
    }
}

/// A query's view is the view of the entry-point list it owns.
pub(crate) proof fn lemma_query_view(q: &SqSpirvQuery)
    ensures
        q@ == eps_view(q.entry_points),
{
}

} // verus!
