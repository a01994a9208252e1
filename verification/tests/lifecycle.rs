use gl_typed::enums::ProgramLinkStatus;
use gl_typed::enums::ShaderCompileStatus;
use gl_typed::enums::ShaderKind as DynamicShaderKind;
use gl_typed::info_log::take_info_log;
use gl_typed::program::create_program;
use gl_typed::program::Program;
use gl_typed::shader::create_shader;
use gl_typed::shader::CompileStatus;
use gl_typed::shader::Shader;
use gl_typed::shader::ShaderKind;
use gl_typed::symbols;

#[test]
fn failed_compile_resolves_to_uncompiled_with_diagnostic() {
    // A driver allocation reported identifier 1 for a vertex shader.
    let shader = create_shader(symbols::Vertex, 1).unwrap();
    assert_eq!(shader.name().to_u32(), 1);
    assert_eq!(*shader.status(), symbols::Uncompiled);

    // The compile call for syntactically invalid source was issued; the
    // outcome is unknown until the requery.
    let pending = shader.compile();
    assert_eq!(*pending.status(), symbols::Unknown);

    // The requery reported a negative status.
    let resolved = pending.query_compile_status(ShaderCompileStatus::Uncompiled);
    let failed = match resolved {
        CompileStatus::Uncompiled(sh) => sh,
        CompileStatus::Compiled(_) => panic!("the driver reported a failed compile"),
    };
    assert_eq!(failed.name().to_u32(), 1);

    // The two-call log fetch: the driver reported 18 bytes written into
    // a 32-byte buffer.
    let mut buffer = b"0:1: syntax error\0".to_vec();
    buffer.resize(32, 0);
    let log = take_info_log(buffer, 18).unwrap();
    assert_eq!(log, b"0:1: syntax error\0".to_vec());
    assert!(!log.is_empty());
}

#[test]
fn successful_compile_resolves_to_compiled_and_delete_consumes() {
    let shader = create_shader(symbols::Vertex, 5).unwrap();
    let pending = shader.compile();
    let resolved = pending.query_compile_status(ShaderCompileStatus::Compiled);
    let compiled = match resolved {
        CompileStatus::Compiled(sh) => sh,
        CompileStatus::Uncompiled(_) => panic!("the driver reported a successful compile"),
    };
    assert_eq!(*compiled.status(), symbols::Compiled);
    assert_eq!(*compiled.kind(), symbols::Vertex);

    // Deletion consumes the resource and hands the name back for the
    // driver's deallocation call; the moved-out value cannot be touched
    // again.
    let name = compiled.delete();
    assert_eq!(name.to_u32(), 5);
}

#[test]
fn linking_two_compiled_shaders_resolves_to_linked() {
    let vertex = create_shader(symbols::Vertex, 1).unwrap();
    let fragment = create_shader(symbols::Fragment, 2).unwrap();
    let vertex = match vertex.compile().query_compile_status(ShaderCompileStatus::Compiled) {
        CompileStatus::Compiled(sh) => sh,
        CompileStatus::Uncompiled(_) => panic!("vertex shader failed"),
    };
    let fragment = match fragment.compile().query_compile_status(ShaderCompileStatus::Compiled) {
        CompileStatus::Compiled(sh) => sh,
        CompileStatus::Uncompiled(_) => panic!("fragment shader failed"),
    };
    // Both names are attached to the program by driver calls, then the
    // link is issued and the mandatory requery reports success.
    assert_eq!(vertex.name().to_u32(), 1);
    assert_eq!(fragment.name().to_u32(), 2);

    let mut program = create_program(3).unwrap();
    assert!(matches!(program, Program::Unlinked(_)));
    program.link(ProgramLinkStatus::Linked).unwrap();
    assert!(matches!(program, Program::Linked(_)));
    assert_eq!(program.delete().to_u32(), 3);
}

#[test]
fn failed_link_preserves_the_name() {
    let mut program = create_program(9).unwrap();
    assert!(program.link(ProgramLinkStatus::Unlinked).is_err());
    match &program {
        Program::Unlinked(name) => assert_eq!(name.to_u32(), 9),
        Program::Linked(_) => panic!("the driver reported a failed link"),
    }
    // A failed program is terminal: the caller deletes it and creates a
    // fresh one.
    assert_eq!(program.delete().to_u32(), 9);
}

#[test]
fn program_name_link_promotes_only_on_success() {
    let program = create_program(4).unwrap();
    let name = program.delete();
    let linked = name.link(ProgramLinkStatus::Linked).unwrap();
    assert_eq!(linked.to_u32(), 4);
    let name = linked.into_program_name();
    let back = name.link(ProgramLinkStatus::Unlinked).unwrap_err();
    assert_eq!(back.to_u32(), 4);
}

#[test]
fn allocation_failure_is_reported_not_coerced() {
    assert!(create_shader(symbols::Vertex, 0).is_err());
    assert!(create_program(0).is_err());
}

#[test]
fn determine_kind_retags_dynamically_created_shaders() {
    let shader = create_shader(DynamicShaderKind::Fragment, 7).unwrap();
    match shader.determine_kind() {
        ShaderKind::Fragment(sh) => {
            assert_eq!(sh.name().to_u32(), 7);
            assert_eq!(*sh.kind(), symbols::Fragment);
        }
        _ => panic!("the dynamic kind was Fragment"),
    }
}

#[test]
fn determine_status_retags_queried_statuses() {
    let name = gl_typed::name::ShaderName::new(8).unwrap();
    let shader = Shader::from_raw_parts(symbols::Geometry, name, ShaderCompileStatus::Compiled);
    match shader.determine_status() {
        CompileStatus::Compiled(sh) => assert_eq!(sh.name().to_u32(), 8),
        CompileStatus::Uncompiled(_) => panic!("the queried status was positive"),
    }
}

#[test]
fn shader_part_accessors_preserve_parts() {
    let name = gl_typed::name::ShaderName::new(12).unwrap();
    let shader = Shader::from_raw_parts(symbols::Compute, name, symbols::Uncompiled);
    let erased = shader.without_kind();
    assert_eq!(*erased.kind(), symbols::Unknown);
    assert_eq!(erased.name().to_u32(), 12);
    let (kind, name, status) = erased.into_raw_parts();
    assert_eq!(kind, symbols::Unknown);
    assert_eq!(name.to_u32(), 12);
    assert_eq!(status, symbols::Uncompiled);
}

#[test]
fn take_info_log_checks_the_reported_length() {
    assert!(take_info_log(vec![1, 2, 3], -1).is_err());
    assert!(take_info_log(vec![1, 2, 3], 4).is_err());
    assert_eq!(take_info_log(vec![1, 2, 3], 0).unwrap(), Vec::<u8>::new());
    assert_eq!(take_info_log(vec![1, 2, 3], 2).unwrap(), vec![1, 2]);
    assert_eq!(take_info_log(Vec::new(), 0).unwrap(), Vec::<u8>::new());
    let err = take_info_log(vec![9], 5).unwrap_err();
    assert_eq!(err.0, 5);
}
