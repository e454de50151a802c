//! End-to-end reflection tests over hand-assembled SPIR-V modules.
use spirq_query::{
    sqCreateReflectQuery, sqDestroyReflectQuery, sqEnumerateSpirvEntryPointVariables,
    sqEnumerateSpirvEntryPoints, SqBool32, SqDescriptorType, SqReflectConfig, SqResult,
    SqScalarRepr, SqSpirvQuery, SqType, SqVariable,
};

const OP_MEMORY_MODEL: u32 = 14;
const OP_ENTRY_POINT: u32 = 15;
const OP_EXECUTION_MODE: u32 = 16;
const OP_CAPABILITY: u32 = 17;
const OP_NAME: u32 = 5;
const OP_MEMBER_NAME: u32 = 6;
const OP_DECORATE: u32 = 71;
const OP_MEMBER_DECORATE: u32 = 72;
const OP_TYPE_VOID: u32 = 19;
const OP_TYPE_FLOAT: u32 = 22;
const OP_TYPE_VECTOR: u32 = 23;
const OP_TYPE_MATRIX: u32 = 24;
const OP_TYPE_IMAGE: u32 = 25;
const OP_TYPE_SAMPLER: u32 = 26;
const OP_TYPE_RUNTIME_ARRAY: u32 = 29;
const OP_TYPE_STRUCT: u32 = 30;
const OP_TYPE_OPAQUE: u32 = 31;
const OP_TYPE_POINTER: u32 = 32;
const OP_TYPE_FUNCTION: u32 = 33;
const OP_VARIABLE: u32 = 59;
const OP_SPEC_CONSTANT_OP: u32 = 52;
const OP_FUNCTION_CALL: u32 = 57;
const OP_FUNCTION: u32 = 54;
const OP_LABEL: u32 = 248;
const OP_RETURN: u32 = 253;
const OP_FUNCTION_END: u32 = 56;

const DECO_BLOCK: u32 = 2;
const DECO_COL_MAJOR: u32 = 5;
const DECO_ARRAY_STRIDE: u32 = 6;
const DECO_MATRIX_STRIDE: u32 = 7;
const DECO_LOCATION: u32 = 30;
const DECO_BINDING: u32 = 33;
const DECO_DESCRIPTOR_SET: u32 = 34;
const DECO_OFFSET: u32 = 35;

const SC_INPUT: u32 = 1;
const SC_UNIFORM: u32 = 2;
const SC_OUTPUT: u32 = 3;
const SC_PUSH_CONSTANT: u32 = 9;
const SC_UNIFORM_CONSTANT: u32 = 0;

const EXEC_MODEL_VERTEX: u32 = 0;
const EXEC_MODEL_FRAGMENT: u32 = 4;

fn instr(op: u32, operands: &[u32]) -> Vec<u32> {
    let mut v = vec![((operands.len() as u32 + 1) << 16) | op];
    v.extend_from_slice(operands);
    v
}

fn str_words(s: &str) -> Vec<u32> {
    let mut bytes = s.as_bytes().to_vec();
    bytes.push(0);
    while bytes.len() % 4 != 0 {
        bytes.push(0);
    }
    bytes.chunks(4).map(|c| u32::from_le_bytes([c[0], c[1], c[2], c[3]])).collect()
}

fn module(instrs: &[Vec<u32>]) -> Vec<u32> {
    let mut words = vec![0x0723_0203u32, 0x0001_0000, 0, 100, 0];
    for i in instrs {
        words.extend_from_slice(i);
    }
    words
}

/// A vertex module: input vec3 "pos" at location 0, output vec4 "clr" at
/// location 0, and a uniform buffer "ubo" at set 0 binding 0 whose struct
/// "UBO" holds one 4x4 float matrix member "mvp" at offset 0.
fn vertex_module() -> Vec<u32> {
    let mut ep = vec![EXEC_MODEL_VERTEX, 14];
    ep.extend(str_words("main"));
    ep.extend_from_slice(&[11, 12]);
    let mut name_pos = vec![11u32];
    name_pos.extend(str_words("pos"));
    let mut name_clr = vec![12u32];
    name_clr.extend(str_words("clr"));
    let mut name_ubo = vec![13u32];
    name_ubo.extend(str_words("ubo"));
    let mut name_struct = vec![7u32];
    name_struct.extend(str_words("UBO"));
    let mut name_member = vec![7u32, 0];
    name_member.extend(str_words("mvp"));
    module(&[
        instr(OP_CAPABILITY, &[1]),
        instr(OP_MEMORY_MODEL, &[0, 1]),
        instr(OP_ENTRY_POINT, &ep),
        instr(OP_NAME, &name_pos),
        instr(OP_NAME, &name_clr),
        instr(OP_NAME, &name_ubo),
        instr(OP_NAME, &name_struct),
        instr(OP_MEMBER_NAME, &name_member),
        instr(OP_DECORATE, &[11, DECO_LOCATION, 0]),
        instr(OP_DECORATE, &[12, DECO_LOCATION, 0]),
        instr(OP_DECORATE, &[13, DECO_DESCRIPTOR_SET, 0]),
        instr(OP_DECORATE, &[13, DECO_BINDING, 0]),
        instr(OP_DECORATE, &[7, DECO_BLOCK]),
        instr(OP_MEMBER_DECORATE, &[7, 0, DECO_COL_MAJOR]),
        instr(OP_MEMBER_DECORATE, &[7, 0, DECO_OFFSET, 0]),
        instr(OP_MEMBER_DECORATE, &[7, 0, DECO_MATRIX_STRIDE, 16]),
        instr(OP_TYPE_VOID, &[1]),
        instr(OP_TYPE_FUNCTION, &[2, 1]),
        instr(OP_TYPE_FLOAT, &[3, 32]),
        instr(OP_TYPE_VECTOR, &[4, 3, 3]),
        instr(OP_TYPE_VECTOR, &[5, 3, 4]),
        instr(OP_TYPE_MATRIX, &[6, 5, 4]),
        instr(OP_TYPE_STRUCT, &[7, 6]),
        instr(OP_TYPE_POINTER, &[8, SC_INPUT, 4]),
        instr(OP_TYPE_POINTER, &[9, SC_OUTPUT, 5]),
        instr(OP_TYPE_POINTER, &[10, SC_UNIFORM, 7]),
        instr(OP_VARIABLE, &[8, 11, SC_INPUT]),
        instr(OP_VARIABLE, &[9, 12, SC_OUTPUT]),
        instr(OP_VARIABLE, &[10, 13, SC_UNIFORM]),
        instr(OP_FUNCTION, &[1, 14, 0, 2]),
        instr(OP_LABEL, &[15]),
        instr(OP_RETURN, &[]),
        instr(OP_FUNCTION_END, &[]),
    ])
}

/// A fragment module declaring a separate sampler "smp" and a sampled image
/// "tex", both at set 0 binding 0.
fn sampler_image_module() -> Vec<u32> {
    let mut ep = vec![EXEC_MODEL_FRAGMENT, 9];
    ep.extend(str_words("main"));
    let mut name_smp = vec![7u32];
    name_smp.extend(str_words("smp"));
    let mut name_tex = vec![8u32];
    name_tex.extend(str_words("tex"));
    module(&[
        instr(OP_CAPABILITY, &[1]),
        instr(OP_MEMORY_MODEL, &[0, 1]),
        instr(OP_ENTRY_POINT, &ep),
        instr(OP_EXECUTION_MODE, &[9, 7]),
        instr(OP_NAME, &name_smp),
        instr(OP_NAME, &name_tex),
        instr(OP_DECORATE, &[7, DECO_DESCRIPTOR_SET, 0]),
        instr(OP_DECORATE, &[7, DECO_BINDING, 0]),
        instr(OP_DECORATE, &[8, DECO_DESCRIPTOR_SET, 0]),
        instr(OP_DECORATE, &[8, DECO_BINDING, 0]),
        instr(OP_TYPE_VOID, &[1]),
        instr(OP_TYPE_FUNCTION, &[2, 1]),
        instr(OP_TYPE_FLOAT, &[3, 32]),
        instr(OP_TYPE_SAMPLER, &[4]),
        // OpTypeImage: result, sampled type, dim 2D, depth 0, arrayed 0,
        // ms 0, sampled 1, format Unknown. Used directly as the variable's
        // type, this is a sampled image still separate from any sampler.
        instr(OP_TYPE_IMAGE, &[5, 3, 1, 0, 0, 0, 1, 0]),
        instr(OP_TYPE_POINTER, &[20, SC_UNIFORM_CONSTANT, 4]),
        instr(OP_TYPE_POINTER, &[21, SC_UNIFORM_CONSTANT, 5]),
        instr(OP_VARIABLE, &[20, 7, SC_UNIFORM_CONSTANT]),
        instr(OP_VARIABLE, &[21, 8, SC_UNIFORM_CONSTANT]),
        instr(OP_FUNCTION, &[1, 9, 0, 2]),
        instr(OP_LABEL, &[10]),
        instr(OP_RETURN, &[]),
        instr(OP_FUNCTION_END, &[]),
    ])
}

/// A vertex module declaring a uniform buffer that no entry point references.
fn unreferenced_buffer_module() -> Vec<u32> {
    let mut ep = vec![EXEC_MODEL_VERTEX, 8];
    ep.extend(str_words("main"));
    module(&[
        instr(OP_CAPABILITY, &[1]),
        instr(OP_MEMORY_MODEL, &[0, 1]),
        instr(OP_ENTRY_POINT, &ep),
        instr(OP_DECORATE, &[6, DECO_DESCRIPTOR_SET, 0]),
        instr(OP_DECORATE, &[6, DECO_BINDING, 3]),
        instr(OP_DECORATE, &[4, DECO_BLOCK]),
        instr(OP_MEMBER_DECORATE, &[4, 0, DECO_OFFSET, 0]),
        instr(OP_TYPE_VOID, &[1]),
        instr(OP_TYPE_FUNCTION, &[2, 1]),
        instr(OP_TYPE_FLOAT, &[3, 32]),
        instr(OP_TYPE_STRUCT, &[4, 3]),
        instr(OP_TYPE_POINTER, &[5, SC_UNIFORM, 4]),
        instr(OP_VARIABLE, &[5, 6, SC_UNIFORM]),
        instr(OP_FUNCTION, &[1, 8, 0, 2]),
        instr(OP_LABEL, &[9]),
        instr(OP_RETURN, &[]),
        instr(OP_FUNCTION_END, &[]),
    ])
}

/// A vertex module with a push-constant block: a vec4 at offset 0 and a
/// trailing runtime-sized float array at offset 16 with stride 4.
fn push_constant_module() -> Vec<u32> {
    let mut ep = vec![EXEC_MODEL_VERTEX, 10];
    ep.extend(str_words("main"));
    module(&[
        instr(OP_CAPABILITY, &[1]),
        instr(OP_MEMORY_MODEL, &[0, 1]),
        instr(OP_ENTRY_POINT, &ep),
        instr(OP_DECORATE, &[5, DECO_ARRAY_STRIDE, 4]),
        instr(OP_DECORATE, &[6, DECO_BLOCK]),
        instr(OP_MEMBER_DECORATE, &[6, 0, DECO_OFFSET, 0]),
        instr(OP_MEMBER_DECORATE, &[6, 1, DECO_OFFSET, 16]),
        instr(OP_TYPE_VOID, &[1]),
        instr(OP_TYPE_FUNCTION, &[2, 1]),
        instr(OP_TYPE_FLOAT, &[3, 32]),
        instr(OP_TYPE_VECTOR, &[4, 3, 4]),
        instr(OP_TYPE_RUNTIME_ARRAY, &[5, 3]),
        instr(OP_TYPE_STRUCT, &[6, 4, 5]),
        instr(OP_TYPE_POINTER, &[7, SC_PUSH_CONSTANT, 6]),
        instr(OP_VARIABLE, &[7, 8, SC_PUSH_CONSTANT]),
        instr(OP_FUNCTION, &[1, 10, 0, 2]),
        instr(OP_LABEL, &[11]),
        instr(OP_RETURN, &[]),
        instr(OP_FUNCTION_END, &[]),
    ])
}

/// A module whose type declarations use an opaque type the engine does not
/// support.
fn opaque_type_module() -> Vec<u32> {
    let mut ep = vec![EXEC_MODEL_VERTEX, 4];
    ep.extend(str_words("main"));
    let mut opaque = vec![3u32];
    opaque.extend(str_words(""));
    module(&[
        instr(OP_CAPABILITY, &[1]),
        instr(OP_MEMORY_MODEL, &[0, 1]),
        instr(OP_ENTRY_POINT, &ep),
        instr(OP_DECORATE, &[3, DECO_BINDING, 0]),
        instr(OP_TYPE_OPAQUE, &opaque),
        instr(OP_TYPE_VOID, &[1]),
        instr(OP_TYPE_FUNCTION, &[2, 1]),
        instr(OP_FUNCTION, &[1, 4, 0, 2]),
        instr(OP_LABEL, &[5]),
        instr(OP_RETURN, &[]),
        instr(OP_FUNCTION_END, &[]),
    ])
}

fn cfg(words: Vec<u32>, ref_all: bool, combine: bool) -> SqReflectConfig {
    SqReflectConfig {
        spirv: words,
        ref_all_rscs: if ref_all { SqBool32::True } else { SqBool32::False },
        combine_img_samplers: if combine { SqBool32::True } else { SqBool32::False },
    }
}

fn create(words: Vec<u32>, ref_all: bool, combine: bool) -> (SqResult, SqSpirvQuery) {
    let mut q = SqSpirvQuery::new();
    let r = sqCreateReflectQuery(&cfg(words, ref_all, combine), &mut q);
    (r, q)
}

#[test]
fn vertex_module_reflects_to_expected_tree() {
    let (r, q) = create(vertex_module(), true, false);
    assert_eq!(r, SqResult::Success);
    let eps = sqEnumerateSpirvEntryPoints(&q);
    assert_eq!(eps.len(), 1);
    assert_eq!(eps[0].name, "main");
    assert_eq!(eps[0].base_size, 0);
    assert_eq!(eps[0].dyn_stride, 0);
    let vars = sqEnumerateSpirvEntryPointVariables(&q, 0).unwrap();
    assert_eq!(vars.len(), 3);
    match &vars[0] {
        SqVariable::Input { name, location, component, ty } => {
            assert_eq!(name, "pos");
            assert_eq!(*location, 0);
            assert_eq!(*component, 0);
            match &**ty {
                SqType::Numeric { scalar_ty, nlane } => {
                    assert_eq!(*nlane, 3);
                    assert_eq!(scalar_ty.repr, SqScalarRepr::SignedFloat);
                    assert_eq!(scalar_ty.nbyte, 4);
                },
                other => panic!("input type: {:?}", other),
            }
        },
        other => panic!("first variable: {:?}", other),
    }
    match &vars[1] {
        SqVariable::Output { name, location, ty, .. } => {
            assert_eq!(name, "clr");
            assert_eq!(*location, 0);
            assert!(matches!(&**ty, SqType::Numeric { nlane: 4, .. }));
        },
        other => panic!("second variable: {:?}", other),
    }
    match &vars[2] {
        SqVariable::Descriptor { name, set, binding, desc_ty, ty, nbind } => {
            assert_eq!(name, "ubo");
            assert_eq!(*set, 0);
            assert_eq!(*binding, 0);
            assert_eq!(*nbind, 1);
            assert_eq!(*desc_ty, SqDescriptorType::UniformBuffer);
            match &**ty {
                SqType::Struct { name, members } => {
                    assert_eq!(name, "UBO");
                    assert_eq!(members.len(), 1);
                    assert_eq!(members[0].name, "mvp");
                    assert_eq!(members[0].offset, 0);
                    match &*members[0].ty {
                        SqType::Matrix { scalar_ty, nrow, ncolumn, stride, major } => {
                            assert_eq!(scalar_ty.repr, SqScalarRepr::SignedFloat);
                            assert_eq!(scalar_ty.nbyte, 4);
                            assert_eq!(*nrow, 4);
                            assert_eq!(*ncolumn, 4);
                            assert_eq!(*stride, 16);
                            assert_eq!(*major, spirq_query::SqMatrixAxisOrder::ColumnMajor);
                        },
                        other => panic!("member type: {:?}", other),
                    }
                },
                other => panic!("descriptor type tree: {:?}", other),
            }
        },
        other => panic!("third variable: {:?}", other),
    }
    sqDestroyReflectQuery(q);
}

#[test]
fn enumeration_is_idempotent() {
    let (r, q) = create(vertex_module(), true, false);
    assert_eq!(r, SqResult::Success);
    let first = sqEnumerateSpirvEntryPoints(&q);
    let second = sqEnumerateSpirvEntryPoints(&q);
    assert_eq!(first, second);
    let v1 = sqEnumerateSpirvEntryPointVariables(&q, 0).unwrap();
    let v2 = sqEnumerateSpirvEntryPointVariables(&q, 0).unwrap();
    assert_eq!(v1, v2);
    assert!(sqEnumerateSpirvEntryPointVariables(&q, 1).is_none());
    sqDestroyReflectQuery(q);
}

#[test]
fn combine_img_samplers_toggles_classification() {
    // Combined: the sampler and the image at the same binding merge.
    let (r, q) = create(sampler_image_module(), true, true);
    assert_eq!(r, SqResult::Success);
    let vars = sqEnumerateSpirvEntryPointVariables(&q, 0).unwrap();
    assert_eq!(vars.len(), 1);
    match &vars[0] {
        SqVariable::Descriptor { name, desc_ty, ty, .. } => {
            assert_eq!(name, "tex");
            assert_eq!(*desc_ty, SqDescriptorType::CombinedImageSampler);
            assert!(matches!(&**ty, SqType::SampledImage { .. }));
        },
        other => panic!("combined variable: {:?}", other),
    }
    sqDestroyReflectQuery(q);

    // Uncombined: the same module reflects to the two separate descriptors.
    let (r2, q2) = create(sampler_image_module(), true, false);
    assert_eq!(r2, SqResult::Success);
    let vars2 = sqEnumerateSpirvEntryPointVariables(&q2, 0).unwrap();
    assert_eq!(vars2.len(), 2);
    let mut seen_sampler = false;
    let mut seen_image = false;
    for v in vars2.iter() {
        match v {
            SqVariable::Descriptor { desc_ty: SqDescriptorType::Sampler, ty, .. } => {
                assert!(matches!(&**ty, SqType::Sampler));
                seen_sampler = true;
            },
            SqVariable::Descriptor { desc_ty: SqDescriptorType::SampledImage, ty, .. } => {
                assert!(matches!(&**ty, SqType::SampledImage { .. }));
                seen_image = true;
            },
            other => panic!("uncombined variable: {:?}", other),
        }
    }
    assert!(seen_sampler && seen_image);
    sqDestroyReflectQuery(q2);
}

#[test]
fn ref_all_rscs_toggles_unreferenced_buffer() {
    let (r, q) = create(unreferenced_buffer_module(), true, false);
    assert_eq!(r, SqResult::Success);
    let vars = sqEnumerateSpirvEntryPointVariables(&q, 0).unwrap();
    assert_eq!(vars.len(), 1);
    assert!(matches!(
        &vars[0],
        SqVariable::Descriptor { desc_ty: SqDescriptorType::UniformBuffer, .. }
    ));
    sqDestroyReflectQuery(q);

    let (r2, q2) = create(unreferenced_buffer_module(), false, false);
    assert_eq!(r2, SqResult::Success);
    let vars2 = sqEnumerateSpirvEntryPointVariables(&q2, 0).unwrap();
    assert_eq!(vars2.len(), 0);
    sqDestroyReflectQuery(q2);
}

#[test]
fn push_constant_layout_figures() {
    let (r, q) = create(push_constant_module(), true, false);
    assert_eq!(r, SqResult::Success);
    let eps = sqEnumerateSpirvEntryPoints(&q);
    assert_eq!(eps.len(), 1);
    assert_eq!(eps[0].base_size, 16);
    assert_eq!(eps[0].dyn_stride, 4);
    let vars = sqEnumerateSpirvEntryPointVariables(&q, 0).unwrap();
    assert_eq!(vars.len(), 1);
    match &vars[0] {
        SqVariable::PushConstant { name, ty } => {
            // No debug names were declared: absent names become empty.
            assert_eq!(name, "");
            match &**ty {
                SqType::Struct { members, .. } => {
                    assert_eq!(members.len(), 2);
                    assert_eq!(members[1].offset, 16);
                    match &*members[1].ty {
                        SqType::Array { nelem, stride, .. } => {
                            assert_eq!(*nelem, 0);
                            assert_eq!(*stride, 4);
                        },
                        other => panic!("tail member: {:?}", other),
                    }
                },
                other => panic!("push constant type: {:?}", other),
            }
        },
        other => panic!("variable: {:?}", other),
    }
    sqDestroyReflectQuery(q);
}

#[test]
fn truncated_input_is_corrupted_and_leaves_query_untouched() {
    let mut q = SqSpirvQuery::new();
    let r = sqCreateReflectQuery(&cfg(vec![0x0723_0203, 0x0001_0000, 0], true, false), &mut q);
    assert_eq!(r, SqResult::ErrorCorruptedSpirv);
    assert_eq!(sqEnumerateSpirvEntryPoints(&q).len(), 0);
    sqDestroyReflectQuery(q);
}

#[test]
fn wrong_magic_is_corrupted() {
    let mut q = SqSpirvQuery::new();
    let r = sqCreateReflectQuery(&cfg(vec![0, 0x0001_0000, 0, 100, 0], false, false), &mut q);
    assert_eq!(r, SqResult::ErrorCorruptedSpirv);
    assert_eq!(sqEnumerateSpirvEntryPoints(&q).len(), 0);
    sqDestroyReflectQuery(q);
}

#[test]
fn malformed_instruction_stream_is_corrupted() {
    // An OpName whose string operand is never nul-terminated.
    let mut ep = vec![EXEC_MODEL_VERTEX, 2u32];
    ep.extend(str_words("main"));
    let words = module(&[
        instr(OP_CAPABILITY, &[1]),
        instr(OP_MEMORY_MODEL, &[0, 1]),
        instr(OP_ENTRY_POINT, &ep),
        instr(OP_NAME, &[2, 0x6161_6161]),
    ]);
    let mut q = SqSpirvQuery::new();
    let r = sqCreateReflectQuery(&cfg(words, false, false), &mut q);
    assert_eq!(r, SqResult::ErrorCorruptedSpirv);
    sqDestroyReflectQuery(q);
}

#[test]
fn unsupported_type_is_reported() {
    let mut q = SqSpirvQuery::new();
    let r = sqCreateReflectQuery(&cfg(opaque_type_module(), false, false), &mut q);
    assert_eq!(r, SqResult::ErrorUnsupportedSpirv);
    assert_eq!(sqEnumerateSpirvEntryPoints(&q).len(), 0);
    sqDestroyReflectQuery(q);
}

#[test]
fn zero_count_instruction_word_is_corrupted() {
    // A header followed by one word whose count half is zero: the stream can
    // never be stepped past it.
    let mut q = SqSpirvQuery::new();
    let words = vec![0x0723_0203u32, 0x0001_0000, 0, 100, 0, 0x0000_0011];
    let r = sqCreateReflectQuery(&cfg(words, true, false), &mut q);
    assert_eq!(r, SqResult::ErrorCorruptedSpirv);
    let zero = vec![0x0723_0203u32, 0x0001_0000, 0, 100, 0, 0x0000_0000];
    let r2 = sqCreateReflectQuery(&cfg(zero, false, false), &mut q);
    assert_eq!(r2, SqResult::ErrorCorruptedSpirv);
    assert_eq!(sqEnumerateSpirvEntryPoints(&q).len(), 0);
    sqDestroyReflectQuery(q);
}

#[test]
fn dividing_spec_constant_op_is_corrupted() {
    // OpSpecConstantOp with the UDiv opcode as its operation.
    let mut ep = vec![EXEC_MODEL_VERTEX, 4u32];
    ep.extend(str_words("main"));
    let words = module(&[
        instr(OP_CAPABILITY, &[1]),
        instr(OP_MEMORY_MODEL, &[0, 1]),
        instr(OP_ENTRY_POINT, &ep),
        instr(OP_DECORATE, &[3, DECO_BINDING, 0]),
        instr(OP_TYPE_VOID, &[1]),
        instr(OP_SPEC_CONSTANT_OP, &[2, 3, 134, 8, 9]),
    ]);
    let mut q = SqSpirvQuery::new();
    let r = sqCreateReflectQuery(&cfg(words, false, false), &mut q);
    assert_eq!(r, SqResult::ErrorCorruptedSpirv);
    sqDestroyReflectQuery(q);
}

/// A vertex module whose single function calls itself.
fn self_call_module() -> Vec<u32> {
    let mut ep = vec![EXEC_MODEL_VERTEX, 4u32];
    ep.extend(str_words("main"));
    module(&[
        instr(OP_CAPABILITY, &[1]),
        instr(OP_MEMORY_MODEL, &[0, 1]),
        instr(OP_ENTRY_POINT, &ep),
        instr(OP_DECORATE, &[3, DECO_BINDING, 0]),
        instr(OP_TYPE_VOID, &[1]),
        instr(OP_TYPE_FUNCTION, &[2, 1]),
        instr(OP_FUNCTION, &[1, 4, 0, 2]),
        instr(OP_LABEL, &[5]),
        instr(OP_FUNCTION_CALL, &[1, 6, 4]),
        instr(OP_RETURN, &[]),
        instr(OP_FUNCTION_END, &[]),
    ])
}

#[test]
fn cyclic_call_graph_is_corrupted_when_walked() {
    // With the resource walk on (the flag off), a self-call would make the
    // engine recurse without bound, so the module is classified corrupted.
    let mut q = SqSpirvQuery::new();
    let r = sqCreateReflectQuery(&cfg(self_call_module(), false, false), &mut q);
    assert_eq!(r, SqResult::ErrorCorruptedSpirv);
    sqDestroyReflectQuery(q);
    // With every resource referenced, the engine never walks the call graph
    // and the same module reflects.
    let (r2, q2) = create(self_call_module(), true, false);
    assert_eq!(r2, SqResult::Success);
    assert_eq!(sqEnumerateSpirvEntryPoints(&q2).len(), 1);
    sqDestroyReflectQuery(q2);
}

#[test]
fn acyclic_call_graph_reflects_with_resource_walk() {
    // One function calling another, no cycle: the walk runs and succeeds.
    let mut ep = vec![EXEC_MODEL_VERTEX, 4u32];
    ep.extend(str_words("main"));
    let words = module(&[
        instr(OP_CAPABILITY, &[1]),
        instr(OP_MEMORY_MODEL, &[0, 1]),
        instr(OP_ENTRY_POINT, &ep),
        instr(OP_DECORATE, &[3, DECO_BINDING, 0]),
        instr(OP_TYPE_VOID, &[1]),
        instr(OP_TYPE_FUNCTION, &[2, 1]),
        instr(OP_FUNCTION, &[1, 4, 0, 2]),
        instr(OP_LABEL, &[5]),
        instr(OP_FUNCTION_CALL, &[1, 6, 7]),
        instr(OP_RETURN, &[]),
        instr(OP_FUNCTION_END, &[]),
        instr(OP_FUNCTION, &[1, 7, 0, 2]),
        instr(OP_LABEL, &[8]),
        instr(OP_RETURN, &[]),
        instr(OP_FUNCTION_END, &[]),
    ]);
    let (r, q) = create(words, false, false);
    assert_eq!(r, SqResult::Success);
    let eps = sqEnumerateSpirvEntryPoints(&q);
    assert_eq!(eps.len(), 1);
    assert_eq!(eps[0].name, "main");
    sqDestroyReflectQuery(q);
}

#[test]
fn destroying_one_query_leaves_others_intact() {
    let (r1, q1) = create(vertex_module(), true, false);
    let (r2, q2) = create(vertex_module(), true, false);
    assert_eq!(r1, SqResult::Success);
    assert_eq!(r2, SqResult::Success);
    sqDestroyReflectQuery(q1);
    let eps = sqEnumerateSpirvEntryPoints(&q2);
    assert_eq!(eps.len(), 1);
    assert_eq!(eps[0].name, "main");
    let vars = sqEnumerateSpirvEntryPointVariables(&q2, 0).unwrap();
    assert_eq!(vars.len(), 3);
    sqDestroyReflectQuery(q2);
}

#[test]
fn repeated_creation_is_deterministic() {
    let (r1, q1) = create(vertex_module(), true, false);
    let (r2, q2) = create(vertex_module(), true, false);
    assert_eq!(r1, SqResult::Success);
    assert_eq!(r2, SqResult::Success);
    assert_eq!(sqEnumerateSpirvEntryPoints(&q1), sqEnumerateSpirvEntryPoints(&q2));
    sqDestroyReflectQuery(q1);
    sqDestroyReflectQuery(q2);
}
