use gl_typed::enums::ProgramLinkStatus;
use gl_typed::enums::ShaderCompileStatus;
use gl_typed::enums::ShaderKind;
use gl_typed::symbols;
use gl_typed::traits::CompileStatus as CompileStatusTrait;
use gl_typed::traits::LinkStatus as LinkStatusTrait;
use gl_typed::traits::ShaderKind as ShaderKindTrait;

#[test]
fn shader_kind_constants_are_exact() {
    assert_eq!(ShaderKind::Compute.as_u32(), 0x91B9);
    assert_eq!(ShaderKind::Vertex.as_u32(), 0x8B31);
    assert_eq!(ShaderKind::TessControl.as_u32(), 0x8E88);
    assert_eq!(ShaderKind::TessEvaluation.as_u32(), 0x8E87);
    assert_eq!(ShaderKind::Geometry.as_u32(), 0x8DD9);
    assert_eq!(ShaderKind::Fragment.as_u32(), 0x8B30);
}

#[test]
fn static_tags_agree_with_decoded_constants() {
    assert_eq!(symbols::Compute.to_dynamic(), ShaderKind::from_u32(0x91B9).unwrap());
    assert_eq!(symbols::Vertex.to_dynamic(), ShaderKind::from_u32(0x8B31).unwrap());
    assert_eq!(symbols::TessControl.to_dynamic(), ShaderKind::from_u32(0x8E88).unwrap());
    assert_eq!(symbols::TessEvaluation.to_dynamic(), ShaderKind::from_u32(0x8E87).unwrap());
    assert_eq!(symbols::Geometry.to_dynamic(), ShaderKind::from_u32(0x8DD9).unwrap());
    assert_eq!(symbols::Fragment.to_dynamic(), ShaderKind::from_u32(0x8B30).unwrap());

    assert_eq!(symbols::Uncompiled.to_dynamic(), ShaderCompileStatus::from_i32(0).unwrap());
    assert_eq!(symbols::Compiled.to_dynamic(), ShaderCompileStatus::from_i32(1).unwrap());
    assert_eq!(symbols::Unlinked.to_dynamic(), ProgramLinkStatus::from_i32(0).unwrap());
    assert_eq!(symbols::Linked.to_dynamic(), ProgramLinkStatus::from_i32(1).unwrap());
}

#[test]
fn shader_kind_round_trips_through_raw() {
    for kind in [
        ShaderKind::Compute,
        ShaderKind::Vertex,
        ShaderKind::TessControl,
        ShaderKind::TessEvaluation,
        ShaderKind::Geometry,
        ShaderKind::Fragment,
    ] {
        assert_eq!(ShaderKind::from_u32(kind.as_u32()).unwrap(), kind);
    }
}

#[test]
fn from_raw_rejects_undeclared_values() {
    let err = ShaderKind::from_u32(0xFFFF).unwrap_err();
    assert_eq!(err.0, 0xFFFF);
    let err = ShaderKind::from_u32(0).unwrap_err();
    assert_eq!(err.0, 0);
    let err = ShaderKind::from_u32(0x8B32).unwrap_err();
    assert_eq!(err.0, 0x8B32);

    let err = ShaderCompileStatus::from_i32(2).unwrap_err();
    assert_eq!(err.0, 2);
    let err = ShaderCompileStatus::from_i32(-1).unwrap_err();
    assert_eq!(err.0, -1);
    let err = ProgramLinkStatus::from_i32(0x8B31).unwrap_err();
    assert_eq!(err.0, 0x8B31);
}

#[test]
fn status_encodings_are_boolean_constants() {
    assert_eq!(ShaderCompileStatus::Uncompiled.as_i32(), 0);
    assert_eq!(ShaderCompileStatus::Compiled.as_i32(), 1);
    assert_eq!(ProgramLinkStatus::Unlinked.as_i32(), 0);
    assert_eq!(ProgramLinkStatus::Linked.as_i32(), 1);
}

#[test]
fn narrow_to_tag_checks_agreement() {
    let tag = ShaderKind::Vertex.narrow_to_tag(symbols::Vertex).unwrap();
    assert_eq!(tag, symbols::Vertex);
    let back = ShaderKind::Fragment.narrow_to_tag(symbols::Vertex).unwrap_err();
    assert_eq!(back, ShaderKind::Fragment);
}
