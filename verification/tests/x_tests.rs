use d3d9::x::functions::{
    compile_shader_finish, compile_shader_prepare, first_nul_position, CompileError,
};
use d3d9::x::types::{ConstantDesc, ParameterClass, ParameterType, RawConstantDesc, RegisterSet};

#[test]
fn parameter_class_codes_are_sequential() {
    assert_eq!(ParameterClass::Scalar.code(), 0);
    assert_eq!(ParameterClass::Vector.code(), 1);
    assert_eq!(ParameterClass::MatrixRows.code(), 2);
    assert_eq!(ParameterClass::MatrixColumns.code(), 3);
    assert_eq!(ParameterClass::Object.code(), 4);
    assert_eq!(ParameterClass::Struct.code(), 5);
}

#[test]
fn parameter_type_codes_are_sequential() {
    assert_eq!(ParameterType::Void.code(), 0);
    assert_eq!(ParameterType::Float.code(), 3);
    assert_eq!(ParameterType::SamplerCube.code(), 14);
    assert_eq!(ParameterType::Unsupported.code(), 19);
}

#[test]
fn register_set_codes_are_sequential() {
    assert_eq!(RegisterSet::Bool.code(), 0);
    assert_eq!(RegisterSet::Int4.code(), 1);
    assert_eq!(RegisterSet::Float4.code(), 2);
    assert_eq!(RegisterSet::Sampler.code(), 3);
}

#[test]
fn enum_codes_round_trip() {
    assert_eq!(ParameterClass::from_code(5), Some(ParameterClass::Struct));
    assert_eq!(ParameterClass::from_code(6), None);
    assert_eq!(ParameterType::from_code(16), Some(ParameterType::VertexShader));
    assert_eq!(ParameterType::from_code(20), None);
    assert_eq!(RegisterSet::from_code(2), Some(RegisterSet::Float4));
    assert_eq!(RegisterSet::from_code(4), None);
}

fn example_raw_desc() -> RawConstantDesc {
    RawConstantDesc {
        name: b"world_matrix".to_vec(),
        register_set: 2,
        register_index: 4,
        register_count: 4,
        class: 2,
        kind: 3,
        rows: 4,
        columns: 4,
        elements: 1,
        struct_members: 0,
        bytes: 64,
        default_value: 0,
    }
}

#[test]
fn constant_desc_reads_back_its_codes() {
    let desc = ConstantDesc::from_raw(example_raw_desc()).unwrap();
    assert_eq!(desc.name, b"world_matrix".to_vec());
    assert!(matches!(desc.register_set, RegisterSet::Float4));
    assert!(matches!(desc.class, ParameterClass::MatrixRows));
    assert!(matches!(desc.kind, ParameterType::Float));
    assert_eq!(desc.rows, 4);
    assert_eq!(desc.bytes, 64);
}

#[test]
fn constant_desc_round_trips() {
    let raw = example_raw_desc();
    let desc = ConstantDesc::from_raw(example_raw_desc()).unwrap();
    let back = desc.to_raw();
    assert_eq!(back.name, raw.name);
    assert_eq!(back.register_set, raw.register_set);
    assert_eq!(back.class, raw.class);
    assert_eq!(back.kind, raw.kind);
    assert_eq!(back.register_index, raw.register_index);
}

#[test]
fn constant_desc_rejects_unknown_codes() {
    let mut raw = example_raw_desc();
    raw.kind = 99;
    assert!(ConstantDesc::from_raw(raw).is_none());
}

#[test]
fn first_nul_is_found() {
    assert_eq!(first_nul_position(b"ab\0c"), Some(2));
    assert_eq!(first_nul_position(b"\0"), Some(0));
    assert_eq!(first_nul_position(b"abc"), None);
    assert_eq!(first_nul_position(b""), None);
}

#[test]
fn prepare_builds_the_c_string_images() {
    let p = compile_shader_prepare(b"float4 main() : COLOR { return 1; }", b"main", b"ps_2_0")
        .unwrap();
    assert_eq!(p.src_len as usize, 35);
    assert_eq!(p.src_data.len(), 36);
    assert_eq!(*p.src_data.last().unwrap(), 0);
    assert_eq!(p.function_name, b"main\0".to_vec());
    assert_eq!(p.profile, b"ps_2_0\0".to_vec());
}

#[test]
fn prepare_rejects_an_interior_nul() {
    let e = match compile_shader_prepare(b"code", b"ma\0in", b"ps_2_0") {
        Ok(_) => panic!("expected a nul error"),
        Err(e) => e,
    };
    match e {
        CompileError::Nul { from } => assert_eq!(from.position, 2),
        CompileError::Windows { .. } => panic!("expected a nul error"),
    }
}

#[test]
fn prepare_reports_the_source_first() {
    let e = match compile_shader_prepare(b"co\0de", b"\0", b"\0") {
        Ok(_) => panic!("expected a nul error"),
        Err(e) => e,
    };
    match e {
        CompileError::Nul { from } => assert_eq!(from.position, 2),
        CompileError::Windows { .. } => panic!("expected a nul error"),
    }
}

#[test]
fn finish_wraps_both_returned_handles() {
    let (buffer, table) = compile_shader_finish(0, 0x10, 0x20, b"", 0).unwrap();
    assert_eq!(buffer.as_ptr(), 0x10);
    assert_eq!(table.as_ptr(), 0x20);
}

#[test]
fn finish_translates_a_failed_compile() {
    let code = 0x8876_17C0u32 as i32;
    let e = match compile_shader_finish(code, 0, 0, b"syntax error", 12) {
        Ok(_) => panic!("expected a windows error"),
        Err(e) => e,
    };
    match e {
        CompileError::Windows { from } => {
            assert_eq!(from.code(), 0x8876_17C0);
            assert_eq!(from.message().as_slice(), b"syntax error");
        }
        CompileError::Nul { .. } => panic!("expected a windows error"),
    }
}
