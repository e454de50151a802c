//! The materializer: walks the engine representation of the entry points and
//! rebuilds it as the stable result model, classifying image arrangements and
//! formats, defaulting absent names to the empty string, and deriving the
//! push-constant layout figures of each entry point.
use vstd::prelude::*;

use crate::engine::{EngineEntryPoint, EngineMember, EngineScalar, EngineType, EngineVariable};
use crate::layout::{dyn_stride_spec, nbyte_spec, type_dyn_stride, type_nbyte};
use crate::model::{
    entry_point_view, eps_view, lemma_members_view, member_view, members_view, vars_view,
    variable_view, EntryPointView, MemberView, SqBool32, SqEntryPoint, SqImageArrangement,
    SqMatrixAxisOrder,
    SqImageFormat, SqScalarRepr, SqScalarType, SqStructMember, SqSubpassDataArrangement, SqType,
    SqVariable, TypeView, VariableView,
};

verus! {

/// The value of an option, or the fallback when it is absent.
pub open spec fn opt_or<T>(o: Option<T>, d: T) -> T {
    match o {
        Some(x) => x,
        None => d,
    }
}

/// An absent engine name stands for the empty string.
pub open spec fn name_or_empty(n: Option<String>) -> Seq<char> {
    match n {
        Some(s) => s@,
        None => Seq::empty(),
    }
}

/// The scalar type of the model for an engine scalar; `Void` carries no data
/// and has no scalar representation.
pub open spec fn scalar_spec(s: EngineScalar) -> Option<SqScalarType> {
    match s {
        EngineScalar::Void => None,
        EngineScalar::Boolean => Some(SqScalarType { repr: SqScalarRepr::Boolean, nbyte: 1 }),
        EngineScalar::Signed(n) => Some(SqScalarType { repr: SqScalarRepr::SignedInt, nbyte: n }),
        EngineScalar::Unsigned(n) => Some(
            SqScalarType { repr: SqScalarRepr::UnsignedInt, nbyte: n },
        ),
        EngineScalar::Float(n) => Some(SqScalarType { repr: SqScalarRepr::SignedFloat, nbyte: n }),
    }
}

/// The image arrangement for a SPIR-V dimensionality code with the arrayed
/// and multisampled flags; combinations the model does not carry are absent.
pub open spec fn arrangement_spec(dim_code: u32, is_arrayed: bool, is_multisampled: bool) -> Option<
    SqImageArrangement,
> {
    if dim_code == 0 && !is_multisampled {
        if is_arrayed {
            Some(SqImageArrangement::Image1DArray)
        } else {
            Some(SqImageArrangement::Image1D)
        }
    } else if dim_code == 1 {
        if is_arrayed {
            if is_multisampled {
                Some(SqImageArrangement::Image2DMSArray)
            } else {
                Some(SqImageArrangement::Image2DArray)
            }
        } else {
            if is_multisampled {
                Some(SqImageArrangement::Image2DMS)
            } else {
                Some(SqImageArrangement::Image2D)
            }
        }
    } else if dim_code == 2 && !is_arrayed && !is_multisampled {
        Some(SqImageArrangement::Image3D)
    } else if dim_code == 3 && !is_multisampled {
        if is_arrayed {
            Some(SqImageArrangement::CubeMapArray)
        } else {
            Some(SqImageArrangement::CubeMap)
        }
    } else if dim_code == 4 && !is_arrayed && !is_multisampled {
        Some(SqImageArrangement::Image2DRect)
    } else if dim_code == 5 && !is_arrayed && !is_multisampled {
        Some(SqImageArrangement::ImageBuffer)
    } else {
        None
    }
}

/// The image format for a SPIR-V image format code; code zero (unknown) and
/// codes past the table are absent.
pub open spec fn format_spec(code: u32) -> Option<SqImageFormat> {
    if code == 1 { Some(SqImageFormat::Rgba32f) }
    else if code == 2 { Some(SqImageFormat::Rgba16f) }
    else if code == 3 { Some(SqImageFormat::R32f) }
    else if code == 4 { Some(SqImageFormat::Rgba8) }
    else if code == 5 { Some(SqImageFormat::Rgba8Snorm) }
    else if code == 6 { Some(SqImageFormat::Rg32f) }
    else if code == 7 { Some(SqImageFormat::Rg16f) }
    else if code == 8 { Some(SqImageFormat::R11fG11fB10f) }
    else if code == 9 { Some(SqImageFormat::R16f) }
    else if code == 10 { Some(SqImageFormat::Rgba16) }
    else if code == 11 { Some(SqImageFormat::Rgb10A2) }
    else if code == 12 { Some(SqImageFormat::Rg16) }
    else if code == 13 { Some(SqImageFormat::Rg8) }
    else if code == 14 { Some(SqImageFormat::R16) }
    else if code == 15 { Some(SqImageFormat::R8) }
    else if code == 16 { Some(SqImageFormat::Rgba16Snorm) }
    else if code == 17 { Some(SqImageFormat::Rg16Snorm) }
    else if code == 18 { Some(SqImageFormat::Rg8Snorm) }
    else if code == 19 { Some(SqImageFormat::R16Snorm) }
    else if code == 20 { Some(SqImageFormat::R8Snorm) }
    else if code == 21 { Some(SqImageFormat::Rgba32i) }
    else if code == 22 { Some(SqImageFormat::Rgba16i) }
    else if code == 23 { Some(SqImageFormat::Rgba8i) }
    else if code == 24 { Some(SqImageFormat::R32i) }
    else if code == 25 { Some(SqImageFormat::Rg32i) }
    else if code == 26 { Some(SqImageFormat::Rg16i) }
    else if code == 27 { Some(SqImageFormat::Rg8i) }
    else if code == 28 { Some(SqImageFormat::R16i) }
    else if code == 29 { Some(SqImageFormat::R8i) }
    else if code == 30 { Some(SqImageFormat::Rgba32ui) }
    else if code == 31 { Some(SqImageFormat::Rgba16ui) }
    else if code == 32 { Some(SqImageFormat::Rgba8ui) }
    else if code == 33 { Some(SqImageFormat::R32ui) }
    else if code == 34 { Some(SqImageFormat::Rgb10a2ui) }
    else if code == 35 { Some(SqImageFormat::Rg32ui) }
    else if code == 36 { Some(SqImageFormat::Rg16ui) }
    else if code == 37 { Some(SqImageFormat::Rg8ui) }
    else if code == 38 { Some(SqImageFormat::R16ui) }
    else if code == 39 { Some(SqImageFormat::R8ui) }
    else { None }
}

/// The scalar type a storage image with the given format code is accessed
/// with: 32-bit signed integers for the signed-integer formats, 32-bit
/// unsigned integers for the unsigned-integer formats, and 32-bit floats
/// otherwise.
pub open spec fn format_scalar_spec(code: u32) -> SqScalarType {
    if 21 <= code && code <= 29 {
        SqScalarType { repr: SqScalarRepr::SignedInt, nbyte: 4 }
    } else if 30 <= code && code <= 39 {
        SqScalarType { repr: SqScalarRepr::UnsignedInt, nbyte: 4 }
    } else {
        SqScalarType { repr: SqScalarRepr::SignedFloat, nbyte: 4 }
    }
}

/// The subpass-data arrangement for the multisampling flag.
pub open spec fn subpass_spec(is_multisampled: bool) -> SqSubpassDataArrangement {
    if is_multisampled {
        SqSubpassDataArrangement::SubpassDataMS
    } else {
        SqSubpassDataArrangement::SubpassData
    }
}

/// The sampled-image type of the model for the engine's sampled or combined
/// image; the engine does not report a depth flag for these, so it is false.
pub open spec fn sampled_image_spec(
    scalar: EngineScalar,
    dim_code: u32,
    is_arrayed: bool,
    is_multisampled: bool,
) -> Option<TypeView> {
    match (scalar_spec(scalar), arrangement_spec(dim_code, is_arrayed, is_multisampled)) {
        (Some(st), Some(a)) => Some(
            TypeView::SampledImage { scalar_ty: st, is_depth: SqBool32::False, arng: a },
        ),
        _ => None,
    }
}

/// The byte stride between a matrix's vectors: the engine's reported stride,
/// or the packed vector size when the module gave no stride decoration.
pub open spec fn matrix_stride_spec(nrow: u32, scalar_nbyte: u32, stride: Option<usize>) -> int {
    match stride {
        Some(s) => s as int,
        None => (nrow as int) * (scalar_nbyte as int),
    }
}

/// The matrix axis order: row-major when the engine says so, column-major
/// otherwise (the engine's own default for an undecorated matrix).
pub open spec fn major_spec(major_row: Option<bool>) -> SqMatrixAxisOrder {
    match major_row {
        Some(true) => SqMatrixAxisOrder::RowMajor,
        _ => SqMatrixAxisOrder::ColumnMajor,
    }
}

/// The model member for an engine member, when its type can be carried.
pub open spec fn member_spec(m: EngineMember) -> Option<MemberView>
    decreases m, 0int,
{
    match type_spec(m.ty) {
        Some(tv) => Some(MemberView { name: name_or_empty(m.name), offset: m.offset, ty: tv }),
        None => None,
    }
}

/// The model members for the engine members from index `i` on; absent as soon
/// as one of them cannot be carried.
pub open spec fn members_spec_from(ms: Vec<EngineMember>, i: int) -> Option<Seq<MemberView>>
    decreases ms, ms@.len() - i,
{
    if i < 0 || i >= ms@.len() {
        Some(Seq::empty())
    } else {
        match (member_spec(ms@[i]), members_spec_from(ms, i + 1)) {
            (Some(mv), Some(rest)) => Some(seq![mv] + rest),
            _ => None,
        }
    }
}

/// The model members for all the engine members, in order.
pub open spec fn members_spec(ms: Vec<EngineMember>) -> Option<Seq<MemberView>>
    decreases ms, ms@.len() + 1,
{
    members_spec_from(ms, 0)
}

/// The model type for an engine type: absent exactly when the tree holds a
/// construct the model does not carry (an opaque variant, a void or unknown
/// scalar in a numeric position, an unknown format or arrangement).
pub open spec fn type_spec(t: EngineType) -> Option<TypeView>
    decreases t, 0int,
{
    match t {
        EngineType::Scalar { scalar } => match scalar {
            EngineScalar::Void => Some(TypeView::Void),
            _ => match scalar_spec(scalar) {
                Some(st) => Some(TypeView::Numeric { scalar_ty: st, nlane: 1 }),
                None => None,
            },
        },
        EngineType::Vector { scalar, nscalar } => match scalar_spec(scalar) {
            Some(st) => Some(TypeView::Numeric { scalar_ty: st, nlane: nscalar }),
            None => None,
        },
        EngineType::Matrix { scalar, nrow, ncolumn, stride, major_row } => {
            match scalar_spec(scalar) {
                Some(st) => {
                    if matrix_stride_spec(nrow, st.nbyte, stride) <= usize::MAX {
                        Some(
                            TypeView::Matrix {
                                scalar_ty: st,
                                nrow,
                                ncolumn,
                                stride: matrix_stride_spec(nrow, st.nbyte, stride) as usize,
                                major: major_spec(major_row),
                            },
                        )
                    } else {
                        None
                    }
                },
                None => None,
            }
        },
        EngineType::Image { scalar, fmt_code, dim_code, is_arrayed, is_multisampled } => {
            match (
                scalar_spec(scalar),
                format_spec(fmt_code),
                arrangement_spec(dim_code, is_arrayed, is_multisampled),
            ) {
                (Some(st), Some(f), Some(a)) => Some(
                    TypeView::Image { scalar_ty: st, fmt: f, arng: a },
                ),
                _ => None,
            }
        },
        EngineType::SampledImage { scalar, dim_code, is_arrayed, is_multisampled } => {
            sampled_image_spec(scalar, dim_code, is_arrayed, is_multisampled)
        },
        EngineType::StorageImage { fmt_code, dim_code, is_arrayed, is_multisampled } => {
            match (format_spec(fmt_code), arrangement_spec(dim_code, is_arrayed, is_multisampled)) {
                (Some(f), Some(a)) => Some(
                    TypeView::Image { scalar_ty: format_scalar_spec(fmt_code), fmt: f, arng: a },
                ),
                _ => None,
            }
        },
        EngineType::Sampler => Some(TypeView::Sampler),
        EngineType::SubpassData { is_multisampled } => Some(
            TypeView::SubpassData { arng: subpass_spec(is_multisampled) },
        ),
        EngineType::Array { proto_ty, nrepeat, stride } => match type_spec(*proto_ty) {
            Some(p) => Some(
                TypeView::Array {
                    proto_ty: Box::new(p),
                    nelem: opt_or(nrepeat, 0u32),
                    stride: opt_or(stride, 0usize),
                },
            ),
            None => None,
        },
        EngineType::Struct { name, members } => match members_spec(members) {
            Some(mv) => Some(TypeView::Struct { name: name_or_empty(name), members: mv }),
            None => None,
        },
        EngineType::AccelStruct => Some(TypeView::AccelStruct),
        EngineType::Opaque => None,
    }
}

/// `members_spec_from` walks an index range: it is present exactly when every
/// member from `i` on is, and then views each of them in place.
pub proof fn lemma_members_spec_from(ms: Vec<EngineMember>, i: int)
    requires
        0 <= i <= ms@.len(),
    ensures
        (members_spec_from(ms, i) is Some) <==> (forall|j: int|
            i <= j < ms@.len() ==> member_spec(ms@[j]) is Some),
        members_spec_from(ms, i) is Some ==> {
            let s = opt_or(members_spec_from(ms, i), arbitrary());
            s.len() == ms@.len() - i && (forall|j: int|
                i <= j < ms@.len() ==> s[j - i] == opt_or(member_spec(ms@[j]), arbitrary()))
        },
    decreases ms@.len() - i,
{
    if i < ms@.len() {
        lemma_members_spec_from(ms, i + 1);
    }
}

/// The model variable for an engine variable, when its type can be carried.
pub open spec fn variable_spec(v: EngineVariable) -> Option<VariableView> {
    match v {
        EngineVariable::Input { name, location, component, ty } => match type_spec(ty) {
            Some(tv) => Some(
                VariableView::Input { name: name_or_empty(name), location, component, ty: tv },
            ),
            None => None,
        },
        EngineVariable::Output { name, location, component, ty } => match type_spec(ty) {
            Some(tv) => Some(
                VariableView::Output { name: name_or_empty(name), location, component, ty: tv },
            ),
            None => None,
        },
        EngineVariable::Descriptor { name, set, binding, desc_ty, ty, nbind } => {
            match type_spec(ty) {
                Some(tv) => Some(
                    VariableView::Descriptor {
                        name: name_or_empty(name),
                        binding,
                        set,
                        desc_ty,
                        ty: tv,
                        nbind,
                    },
                ),
                None => None,
            }
        },
        EngineVariable::PushConstant { name, ty } => match type_spec(ty) {
            Some(tv) => Some(VariableView::PushConstant { name: name_or_empty(name), ty: tv }),
            None => None,
        },
        EngineVariable::SpecConstant { name, spec_id, ty } => match type_spec(ty) {
            Some(tv) => Some(
                VariableView::SpecConstant { name: name_or_empty(name), spec_id, ty: tv },
            ),
            None => None,
        },
    }
}

/// The model variables for a whole engine variable list, in order.
pub open spec fn vars_spec(vs: Seq<EngineVariable>) -> Option<Seq<VariableView>> {
    if forall|i: int| 0 <= i < vs.len() ==> variable_spec(vs[i]) is Some {
        Some(Seq::new(vs.len(), |i: int| opt_or(variable_spec(vs[i]), arbitrary())))
    } else {
        None
    }
}

/// Whether a variable is a push constant.
pub open spec fn is_push_constant(v: VariableView) -> bool {
    v matches VariableView::PushConstant { .. }
}

/// The type of a push-constant variable.
pub open spec fn push_constant_ty(v: VariableView) -> TypeView {
    match v {
        VariableView::PushConstant { ty, .. } => ty,
        _ => arbitrary(),
    }
}

/// The type of the first push-constant variable of a list, if any.
pub open spec fn first_push_constant(vars: Seq<VariableView>) -> Option<TypeView>
    decreases vars.len(),
{
    if vars.len() == 0 {
        None
    } else if is_push_constant(vars[0]) {
        Some(push_constant_ty(vars[0]))
    } else {
        first_push_constant(vars.drop_first())
    }
}

/// When no variable before index `k` is a push constant, the first push
/// constant of the list is decided at or after `k`.
pub proof fn lemma_first_pc_after(vv: Seq<VariableView>, k: int)
    requires
        0 <= k <= vv.len(),
        forall|j: int| 0 <= j < k ==> !is_push_constant(vv[j]),
    ensures
        k == vv.len() ==> first_push_constant(vv) is None,
        (k < vv.len() && is_push_constant(vv[k])) ==> first_push_constant(vv) == Some(
            push_constant_ty(vv[k]),
        ),
    decreases k,
{
    if k > 0 {
        let tail = vv.drop_first();
        assert(!is_push_constant(vv[0]));
        assert forall|j: int| 0 <= j < k - 1 implies !is_push_constant(tail[j]) by {
            assert(tail[j] == vv[j + 1]);
        }
        lemma_first_pc_after(tail, k - 1);
        if k < vv.len() {
            assert(tail[k - 1] == vv[k]);
        }
    }
}

/// The mathematical base size of an entry point's push-constant layout.
pub open spec fn base_size_spec(vv: Seq<VariableView>) -> int {
    match first_push_constant(vv) {
        Some(t) => nbyte_spec(t),
        None => 0,
    }
}

/// The trailing dynamic stride of an entry point's push-constant layout.
pub open spec fn ep_dyn_stride_spec(vv: Seq<VariableView>) -> usize {
    match first_push_constant(vv) {
        Some(t) => dyn_stride_spec(t),
        None => 0,
    }
}

/// The model entry point for an engine entry point: its variables in engine
/// order, and the derived push-constant layout figures. Absent when a
/// variable's type cannot be carried or the base size is out of range.
pub open spec fn entry_point_spec(ep: EngineEntryPoint) -> Option<EntryPointView> {
    match vars_spec(ep.vars@) {
        Some(vv) => {
            if base_size_spec(vv) <= usize::MAX {
                Some(
                    EntryPointView {
                        name: ep.name@,
                        vars: vv,
                        base_size: base_size_spec(vv) as usize,
                        dyn_stride: ep_dyn_stride_spec(vv),
                    },
                )
            } else {
                None
            }
        },
        None => None,
    }
}

/// The model entry points for the whole engine report, in order.
pub open spec fn eps_spec(eps: Seq<EngineEntryPoint>) -> Option<Seq<EntryPointView>> {
    if forall|i: int| 0 <= i < eps.len() ==> entry_point_spec(eps[i]) is Some {
        Some(Seq::new(eps.len(), |i: int| opt_or(entry_point_spec(eps[i]), arbitrary())))
    } else {
        None
    }
}

/// Materialization keeps the count, the names and the variable counts of the
/// entry points exactly as the engine reported them.
pub proof fn lemma_materialize_preserves_names(eps: Seq<EngineEntryPoint>)
    requires
        eps_spec(eps) is Some,
    ensures
        opt_or(eps_spec(eps), arbitrary()).len() == eps.len(),
        forall|i: int|
            0 <= i < eps.len() ==> opt_or(eps_spec(eps), arbitrary())[i].name == eps[i].name@,
        forall|i: int|
            0 <= i < eps.len() ==> opt_or(eps_spec(eps), arbitrary())[i].vars.len()
                == eps[i].vars@.len(),
{
}

// ----------------------------------------------------------------------------
// The executable materializer.

/// An absent engine name becomes an owned empty string.
fn owned_name(n: &Option<String>) -> (r: String)
    ensures
        r@ == name_or_empty(*n),
{
    match n {
        Some(s) => s.clone(),
        None => String::new(),
    }
}

/// The scalar type of the model for an engine scalar.
fn materialize_scalar(s: &EngineScalar) -> (r: Option<SqScalarType>)
    ensures
        r == scalar_spec(*s),
{
    match s {
        EngineScalar::Void => None,
        EngineScalar::Boolean => Some(SqScalarType { repr: SqScalarRepr::Boolean, nbyte: 1 }),
        EngineScalar::Signed(n) => Some(SqScalarType { repr: SqScalarRepr::SignedInt, nbyte: *n }),
        EngineScalar::Unsigned(n) => Some(
            SqScalarType { repr: SqScalarRepr::UnsignedInt, nbyte: *n },
        ),
        EngineScalar::Float(n) => Some(
            SqScalarType { repr: SqScalarRepr::SignedFloat, nbyte: *n },
        ),
    }
}

/// The image format for a SPIR-V image format code.
fn format_of(code: u32) -> (r: Option<SqImageFormat>)
    ensures
        r == format_spec(code),
{
    match code {
        1 => Some(SqImageFormat::Rgba32f),
        2 => Some(SqImageFormat::Rgba16f),
        3 => Some(SqImageFormat::R32f),
        4 => Some(SqImageFormat::Rgba8),
        5 => Some(SqImageFormat::Rgba8Snorm),
        6 => Some(SqImageFormat::Rg32f),
        7 => Some(SqImageFormat::Rg16f),
        8 => Some(SqImageFormat::R11fG11fB10f),
        9 => Some(SqImageFormat::R16f),
        10 => Some(SqImageFormat::Rgba16),
        11 => Some(SqImageFormat::Rgb10A2),
        12 => Some(SqImageFormat::Rg16),
        13 => Some(SqImageFormat::Rg8),
        14 => Some(SqImageFormat::R16),
        15 => Some(SqImageFormat::R8),
        16 => Some(SqImageFormat::Rgba16Snorm),
        17 => Some(SqImageFormat::Rg16Snorm),
        18 => Some(SqImageFormat::Rg8Snorm),
        19 => Some(SqImageFormat::R16Snorm),
        20 => Some(SqImageFormat::R8Snorm),
        21 => Some(SqImageFormat::Rgba32i),
        22 => Some(SqImageFormat::Rgba16i),
        23 => Some(SqImageFormat::Rgba8i),
        24 => Some(SqImageFormat::R32i),
        25 => Some(SqImageFormat::Rg32i),
        26 => Some(SqImageFormat::Rg16i),
        27 => Some(SqImageFormat::Rg8i),
        28 => Some(SqImageFormat::R16i),
        29 => Some(SqImageFormat::R8i),
        30 => Some(SqImageFormat::Rgba32ui),
        31 => Some(SqImageFormat::Rgba16ui),
        32 => Some(SqImageFormat::Rgba8ui),
        33 => Some(SqImageFormat::R32ui),
        34 => Some(SqImageFormat::Rgb10a2ui),
        35 => Some(SqImageFormat::Rg32ui),
        36 => Some(SqImageFormat::Rg16ui),
        37 => Some(SqImageFormat::Rg8ui),
        38 => Some(SqImageFormat::R16ui),
        39 => Some(SqImageFormat::R8ui),
        _ => None,
    }
}

/// The access scalar type for a storage image format code.
fn format_scalar_of(code: u32) -> (r: SqScalarType)
    ensures
        r == format_scalar_spec(code),
{
    if 21 <= code && code <= 29 {
        SqScalarType { repr: SqScalarRepr::SignedInt, nbyte: 4 }
    } else if 30 <= code && code <= 39 {
        SqScalarType { repr: SqScalarRepr::UnsignedInt, nbyte: 4 }
    } else {
        SqScalarType { repr: SqScalarRepr::SignedFloat, nbyte: 4 }
    }
}

/// The image arrangement for a dimensionality code with the two flags.
fn arrangement_of(dim_code: u32, is_arrayed: bool, is_multisampled: bool) -> (r: Option<
    SqImageArrangement,
>)
    ensures
        r == arrangement_spec(dim_code, is_arrayed, is_multisampled),
{
    if dim_code == 0 && !is_multisampled {
        if is_arrayed {
            Some(SqImageArrangement::Image1DArray)
        } else {
            Some(SqImageArrangement::Image1D)
        }
    } else if dim_code == 1 {
        if is_arrayed {
            if is_multisampled {
                Some(SqImageArrangement::Image2DMSArray)
            } else {
                Some(SqImageArrangement::Image2DArray)
            }
        } else {
            if is_multisampled {
                Some(SqImageArrangement::Image2DMS)
            } else {
                Some(SqImageArrangement::Image2D)
            }
        }
    } else if dim_code == 2 && !is_arrayed && !is_multisampled {
        Some(SqImageArrangement::Image3D)
    } else if dim_code == 3 && !is_multisampled {
        if is_arrayed {
            Some(SqImageArrangement::CubeMapArray)
        } else {
            Some(SqImageArrangement::CubeMap)
        }
    } else if dim_code == 4 && !is_arrayed && !is_multisampled {
        Some(SqImageArrangement::Image2DRect)
    } else if dim_code == 5 && !is_arrayed && !is_multisampled {
        Some(SqImageArrangement::ImageBuffer)
    } else {
        None
    }
}

/// The sampled-image type of the model for the engine's sampled image data.
fn sampled_image_of(
    scalar: &EngineScalar,
    dim_code: u32,
    is_arrayed: bool,
    is_multisampled: bool,
) -> (r: Option<SqType>)
    ensures
        r is Some <==> sampled_image_spec(*scalar, dim_code, is_arrayed, is_multisampled)
            is Some,
        (r matches Some(st) ==> Some(st@) == sampled_image_spec(
            *scalar,
            dim_code,
            is_arrayed,
            is_multisampled,
        )),
{
    match (materialize_scalar(scalar), arrangement_of(dim_code, is_arrayed, is_multisampled)) {
        (Some(st), Some(a)) => Some(
            SqType::SampledImage { scalar_ty: st, is_depth: SqBool32::False, arng: a },
        ),
        _ => None,
    }
}

/// Materializes one engine type as a type of the model, absent exactly when
/// the engine tree holds a construct the model does not carry.
#[verifier::loop_isolation(false)]
pub fn materialize_type(t: &EngineType) -> (r: Option<SqType>)
    ensures
        r is Some <==> type_spec(*t) is Some,
        (r matches Some(st) ==> Some(st@) == type_spec(*t)),
    decreases *t,
{
    match t {
        EngineType::Scalar { scalar } => {
            if let EngineScalar::Void = scalar {
                Some(SqType::Void)
            } else {
                match materialize_scalar(scalar) {
                    Some(st) => Some(SqType::Numeric { scalar_ty: st, nlane: 1 }),
                    None => None,
                }
            }
        },
        EngineType::Vector { scalar, nscalar } => {
            match materialize_scalar(scalar) {
                Some(st) => Some(SqType::Numeric { scalar_ty: st, nlane: *nscalar }),
                None => None,
            }
        },
        EngineType::Matrix { scalar, nrow, ncolumn, stride, major_row } => {
            match materialize_scalar(scalar) {
                Some(st) => {
                    let sv: Option<usize> = match stride {
                        Some(s) => Some(*s),
                        None => (*nrow as usize).checked_mul(st.nbyte as usize),
                    };
                    match sv {
                        Some(sv) => Some(
                            SqType::Matrix {
                                scalar_ty: st,
                                nrow: *nrow,
                                ncolumn: *ncolumn,
                                stride: sv,
                                major: match major_row {
                                    Some(true) => SqMatrixAxisOrder::RowMajor,
                                    _ => SqMatrixAxisOrder::ColumnMajor,
                                },
                            },
                        ),
                        None => None,
                    }
                },
                None => None,
            }
        },
        EngineType::Image { scalar, fmt_code, dim_code, is_arrayed, is_multisampled } => {
            match (
                materialize_scalar(scalar),
                format_of(*fmt_code),
                arrangement_of(*dim_code, *is_arrayed, *is_multisampled),
            ) {
                (Some(st), Some(f), Some(a)) => Some(
                    SqType::Image { scalar_ty: st, fmt: f, arng: a },
                ),
                _ => None,
            }
        },
        EngineType::SampledImage { scalar, dim_code, is_arrayed, is_multisampled } => {
            sampled_image_of(scalar, *dim_code, *is_arrayed, *is_multisampled)
        },
        EngineType::StorageImage { fmt_code, dim_code, is_arrayed, is_multisampled } => {
            match (format_of(*fmt_code), arrangement_of(*dim_code, *is_arrayed, *is_multisampled)) {
                (Some(f), Some(a)) => Some(
                    SqType::Image { scalar_ty: format_scalar_of(*fmt_code), fmt: f, arng: a },
                ),
                _ => None,
            }
        },
        EngineType::Sampler => Some(SqType::Sampler),
        EngineType::SubpassData { is_multisampled } => Some(
            SqType::SubpassData {
                arng: if *is_multisampled {
                    SqSubpassDataArrangement::SubpassDataMS
                } else {
                    SqSubpassDataArrangement::SubpassData
                },
            },
        ),
        EngineType::Array { proto_ty, nrepeat, stride } => {
            match materialize_type(proto_ty) {
                Some(p) => Some(
                    SqType::Array {
                        proto_ty: Box::new(p),
                        nelem: match nrepeat {
                            Some(n) => *n,
                            None => 0,
                        },
                        stride: match stride {
                            Some(s) => *s,
                            None => 0,
                        },
                    },
                ),
                None => None,
            }
        },
        EngineType::Struct { name, members } => {
            let n = members.len();
            let mut out: Vec<SqStructMember> = Vec::new();
            let mut i: usize = 0;
            while i < n
                invariant
                    n == members@.len(),
                    0 <= i <= n,
                    out@.len() == i,
                    forall|j: int| 0 <= j < i ==> (#[trigger] member_spec(members@[j])) is Some,
                    forall|j: int|
                        0 <= j < i ==> (#[trigger] member_view(out@[j])) == opt_or(
                            member_spec(members@[j]),
                            arbitrary(),
                        ),
                decreases n - i,
            {
                match materialize_type(&members[i].ty) {
                    Some(st) => {
                        let built = SqStructMember {
                            name: owned_name(&members[i].name),
                            offset: members[i].offset,
                            ty: Box::new(st),
                        };
                        let ghost pre = out@;
                        out.push(built);
                        proof {
                            assert(out@ == pre.push(built));
                            assert(out@[pre.len() as int] == built);
                            assert(forall|j: int| 0 <= j < pre.len() ==> out@[j] == pre[j]);
                        }
                    },
                    None => {
                        proof {
                            lemma_members_spec_from(*members, 0);
                        }
                        return None;
                    },
                }
                i += 1;
            }
            proof {
                lemma_members_spec_from(*members, 0);
                lemma_members_view(out);
                assert(forall|j: int|
                    0 <= j < members@.len() ==> member_spec(members@[j]) is Some);
                assert(members_spec_from(*members, 0) is Some);
                let sv = opt_or(members_spec(*members), arbitrary());
                assert forall|j: int| 0 <= j < n implies members_view(out)[j] == sv[j] by {
                    assert(members_view(out)[j] == member_view(out@[j]));
                    assert(sv[j] == opt_or(member_spec(members@[j]), arbitrary()));
                }
                assert(members_view(out) =~= sv);
            }
            Some(SqType::Struct { name: owned_name(name), members: out })
        },
        EngineType::AccelStruct => Some(SqType::AccelStruct),
        EngineType::Opaque => None,
    }
}

/// Materializes one engine variable as a variable of the model.
pub fn materialize_variable(v: &EngineVariable) -> (r: Option<SqVariable>)
    ensures
        r is Some <==> variable_spec(*v) is Some,
        (r matches Some(sv) ==> Some(sv@) == variable_spec(*v)),
{
    match v {
        EngineVariable::Input { name, location, component, ty } => {
            match materialize_type(ty) {
                Some(st) => Some(
                    SqVariable::Input {
                        name: owned_name(name),
                        location: *location,
                        component: *component,
                        ty: Box::new(st),
                    },
                ),
                None => None,
            }
        },
        EngineVariable::Output { name, location, component, ty } => {
            match materialize_type(ty) {
                Some(st) => Some(
                    SqVariable::Output {
                        name: owned_name(name),
                        location: *location,
                        component: *component,
                        ty: Box::new(st),
                    },
                ),
                None => None,
            }
        },
        EngineVariable::Descriptor { name, set, binding, desc_ty, ty, nbind } => {
            match materialize_type(ty) {
                Some(st) => Some(
                    SqVariable::Descriptor {
                        name: owned_name(name),
                        binding: *binding,
                        set: *set,
                        desc_ty: *desc_ty,
                        ty: Box::new(st),
                        nbind: *nbind,
                    },
                ),
                None => None,
            }
        },
        EngineVariable::PushConstant { name, ty } => {
            match materialize_type(ty) {
                Some(st) => Some(
                    SqVariable::PushConstant { name: owned_name(name), ty: Box::new(st) },
                ),
                None => None,
            }
        },
        EngineVariable::SpecConstant { name, spec_id, ty } => {
            match materialize_type(ty) {
                Some(st) => Some(
                    SqVariable::SpecConstant {
                        name: owned_name(name),
                        spec_id: *spec_id,
                        ty: Box::new(st),
                    },
                ),
                None => None,
            }
        },
    }
}

/// Materializes one engine entry point: its variables in order, and the
/// derived push-constant layout figures.
#[verifier::loop_isolation(false)]
pub fn materialize_entry_point(ep: &EngineEntryPoint) -> (r: Option<SqEntryPoint>)
    ensures
        r is Some <==> entry_point_spec(*ep) is Some,
        (r matches Some(sep) ==> Some(sep@) == entry_point_spec(*ep)),
{
    let n = ep.vars.len();
    let mut out: Vec<SqVariable> = Vec::new();
    let mut i: usize = 0;
    while i < n
        invariant
            n == ep.vars@.len(),
            0 <= i <= n,
            out@.len() == i,
            forall|j: int| 0 <= j < i ==> (#[trigger] variable_spec(ep.vars@[j])) is Some,
            forall|j: int|
                0 <= j < i ==> (#[trigger] variable_view(out@[j])) == opt_or(
                    variable_spec(ep.vars@[j]),
                    arbitrary(),
                ),
        decreases n - i,
    {
        match materialize_variable(&ep.vars[i]) {
            Some(sv) => {
                let ghost pre = out@;
                out.push(sv);
                proof {
                    assert(out@ == pre.push(sv));
                    assert(out@[pre.len() as int] == sv);
                    assert(forall|j: int| 0 <= j < pre.len() ==> out@[j] == pre[j]);
                }
            },
            None => {
                return None;
            },
        }
        i += 1;
    }
    proof {
        assert(forall|j: int| 0 <= j < ep.vars@.len() ==> variable_spec(ep.vars@[j]) is Some);
        assert(vars_spec(ep.vars@) is Some);
    }
    let ghost vv = opt_or(vars_spec(ep.vars@), arbitrary());
    proof {
        assert forall|j: int| 0 <= j < n implies vars_view(out)[j] == vv[j] by {
            assert(vars_view(out)[j] == variable_view(out@[j]));
            assert(vv[j] == opt_or(variable_spec(ep.vars@[j]), arbitrary()));
        }
        assert(vars_view(out) =~= vv);
    }
    // Find the first push constant and derive the layout figures from it.
    let mut base: usize = 0;
    let mut dyn_stride: usize = 0;
    match find_push_constant(&out) {
        Some(k) => {
            proof {
                lemma_first_pc_after(vars_view(out), k as int);
            }
            match &out[k] {
                SqVariable::PushConstant { ty, .. } => {
                    match type_nbyte(ty) {
                        Some(b) => {
                            base = b;
                        },
                        None => {
                            return None;
                        },
                    }
                    dyn_stride = type_dyn_stride(ty);
                },
                _ => {
                    proof {
                        assert(false);
                    }
                },
            }
        },
        None => {
            proof {
                lemma_first_pc_after(vars_view(out), n as int);
            }
        },
    }
    Some(
        SqEntryPoint { name: ep.name.clone(), vars: out, base_size: base, dyn_stride: dyn_stride },
    )
}

/// The index of the first push-constant variable of a list, if any.
#[verifier::loop_isolation(false)]
fn find_push_constant(vars: &Vec<SqVariable>) -> (r: Option<usize>)
    ensures
        (r matches Some(k) ==> k < vars@.len() && is_push_constant(vars_view(*vars)[k as int])
            && (forall|j: int| 0 <= j < k ==> !is_push_constant(vars_view(*vars)[j]))),
        r is None ==> (forall|j: int|
            0 <= j < vars@.len() ==> !is_push_constant(vars_view(*vars)[j])),
{
    let n = vars.len();
    let mut k: usize = 0;
    while k < n
        invariant
            n == vars@.len(),
            0 <= k <= n,
            forall|j: int| 0 <= j < k ==> !is_push_constant(vars_view(*vars)[j]),
        decreases n - k,
    {
        let found = match &vars[k] {
            SqVariable::PushConstant { .. } => true,
            _ => false,
        };
        if found {
            return Some(k);
        }
        k += 1;
    }
    None
}

/// Materializes the whole engine report, in order.
#[verifier::loop_isolation(false)]
pub fn materialize_entry_points(eps: &Vec<EngineEntryPoint>) -> (r: Option<Vec<SqEntryPoint>>)
    ensures
        r is Some <==> eps_spec(eps@) is Some,
        (r matches Some(v) ==> Some(eps_view(v)) == eps_spec(eps@)),
{
    let n = eps.len();
    let mut out: Vec<SqEntryPoint> = Vec::new();
    let mut i: usize = 0;
    while i < n
        invariant
            n == eps@.len(),
            0 <= i <= n,
            out@.len() == i,
            forall|j: int| 0 <= j < i ==> (#[trigger] entry_point_spec(eps@[j])) is Some,
            forall|j: int|
                0 <= j < i ==> (#[trigger] entry_point_view(out@[j])) == opt_or(
                    entry_point_spec(eps@[j]),
                    arbitrary(),
                ),
        decreases n - i,
    {
        match materialize_entry_point(&eps[i]) {
            Some(sep) => {
                let ghost pre = out@;
                out.push(sep);
                proof {
                    assert(out@ == pre.push(sep));
                    assert(out@[pre.len() as int] == sep);
                    assert(forall|j: int| 0 <= j < pre.len() ==> out@[j] == pre[j]);
                }
            },
            None => {
                return None;
            },
        }
        i += 1;
    }
    proof {
        assert(forall|j: int| 0 <= j < eps@.len() ==> entry_point_spec(eps@[j]) is Some);
        assert(eps_spec(eps@) is Some);
        let target = opt_or(eps_spec(eps@), arbitrary());
        assert forall|j: int| 0 <= j < n implies eps_view(out)[j] == target[j] by {
            assert(eps_view(out)[j] == entry_point_view(out@[j]));
            assert(target[j] == opt_or(entry_point_spec(eps@[j]), arbitrary()));
        }
        assert(eps_view(out) =~= target);
    }
    Some(out)
}

} // verus!
