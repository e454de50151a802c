//! Derived layout figures of the type tree: the byte size of the fixed
//! portion of a block, and the stride of a trailing runtime-sized array.
//!
//! A runtime-sized array contributes no bytes to the fixed portion, and an
//! opaque resource type (image, sampler, acceleration structure, subpass
//! data) occupies no block bytes at all.
use vstd::prelude::*;

use crate::model::{lemma_members_view, SqType, TypeView};

verus! {

/// Mathematical byte size of the fixed portion of a type: lanes times scalar
/// width for numerics, vector count times vector stride for matrices,
/// element count times stride for arrays (zero when runtime-sized), and the
/// last member's offset plus its own size for structs.
pub open spec fn nbyte_spec(t: TypeView) -> int
    decreases t,
{
    match t {
        TypeView::Void => 0,
        TypeView::Numeric { scalar_ty, nlane } => nlane * scalar_ty.nbyte,
        TypeView::Matrix { ncolumn, stride, .. } => ncolumn * stride,
        TypeView::Image { .. } => 0,
        TypeView::SampledImage { .. } => 0,
        TypeView::Sampler => 0,
        TypeView::SubpassData { .. } => 0,
        TypeView::Array { nelem, stride, .. } => nelem * stride,
        TypeView::Struct { members, .. } => {
            if members.len() == 0 {
                0
            } else {
                members.last().offset + nbyte_spec(members.last().ty)
            }
        },
        TypeView::AccelStruct => 0,
    }
}

/// The stride of the trailing runtime-sized array of a block type, zero when
/// there is none: either the block itself is a runtime-sized array, or its
/// last member is one.
pub open spec fn dyn_stride_spec(t: TypeView) -> usize {
    match t {
        TypeView::Array { nelem, stride, .. } => if nelem == 0 {
            stride
        } else {
            0
        },
        TypeView::Struct { members, .. } => {
            if members.len() == 0 {
                0
            } else {
                match members.last().ty {
                    TypeView::Array { nelem, stride, .. } => if nelem == 0 {
                        stride
                    } else {
                        0
                    },
                    _ => 0,
                }
            }
        },
        _ => 0,
    }
}

/// The byte size of a type's fixed portion, when it fits the address space.
pub fn type_nbyte(t: &SqType) -> (r: Option<usize>)
    ensures
        r is Some <==> nbyte_spec(t@) <= usize::MAX,
        r matches Some(n) ==> n == nbyte_spec(t@),
    decreases *t,
{
    match t {
        SqType::Void => Some(0),
        SqType::Numeric { scalar_ty, nlane } => (*nlane as usize).checked_mul(
            scalar_ty.nbyte as usize,
        ),
        SqType::Matrix { ncolumn, stride, .. } => (*ncolumn as usize).checked_mul(*stride),
        SqType::Image { .. } => Some(0),
        SqType::SampledImage { .. } => Some(0),
        SqType::Sampler => Some(0),
        SqType::SubpassData { .. } => Some(0),
        SqType::Array { nelem, stride, .. } => (*nelem as usize).checked_mul(*stride),
        SqType::Struct { members, .. } => {
            proof {
                lemma_members_view(*members);
            }
            if members.len() == 0 {
                Some(0)
            } else {
                let last = &members[members.len() - 1];
                match type_nbyte(&last.ty) {
                    Some(n) => last.offset.checked_add(n),
                    None => {
                        None
                    },
                }
            }
        },
        SqType::AccelStruct => Some(0),
    }
}

/// The trailing runtime-sized array stride of a type, zero when none.
pub fn type_dyn_stride(t: &SqType) -> (r: usize)
    ensures
        r == dyn_stride_spec(t@),
{
    match t {
        SqType::Array { nelem, stride, .. } => if *nelem == 0 {
            *stride
        } else {
            0
        },
        SqType::Struct { members, .. } => {
            proof {
                lemma_members_view(*members);
            }
            if members.len() == 0 {
                0
            } else {
                match &*members[members.len() - 1].ty {
                    SqType::Array { nelem, stride, .. } => if *nelem == 0 {
                        *stride
                    } else {
                        0
                    },
                    _ => 0,
                }
            }
        },
        _ => 0,
    }
}

} // verus!
