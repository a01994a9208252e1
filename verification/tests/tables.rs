use gl_typed::attribute_format::AttributeFormat;
use gl_typed::attribute_format::AttributeFormatF;
use gl_typed::attribute_format::AttributeFormatI;
use gl_typed::attribute_format::AttributeFormatL;
use gl_typed::attribute_format::ComponentCount;
use gl_typed::buffer_target::BufferTarget;
use gl_typed::convert::CastFrom;
use gl_typed::convert::CastInto;
use gl_typed::framebuffer_attachment::FramebufferAttachment;
use gl_typed::framebuffer_attachment::MaxColorAttachments;
use gl_typed::framebuffer_status::FramebufferStatus;
use gl_typed::framebuffer_target::FramebufferTarget;
use gl_typed::param::Param;
use gl_typed::texture_filter::TextureFilter;
use gl_typed::texture_filter::TextureFilterKey;
use gl_typed::texture_parameter::TextureParameterI32Key;
use gl_typed::texture_parameter::TextureParameterI32Value;
use gl_typed::texture_target::TextureTarget;
use gl_typed::texture_unit::MaxCombinedTextureImageUnits;
use gl_typed::texture_unit::TextureUnit;
use gl_typed::texture_wrap::TextureWrap;
use gl_typed::texture_wrap::TextureWrapKey;
use gl_typed::viewport::Viewport;

#[test]
fn component_count_values() {
    assert_eq!(ComponentCount::P1.to_u32(), 1);
    assert_eq!(ComponentCount::P2.to_u32(), 2);
    assert_eq!(ComponentCount::P3.to_u32(), 3);
    assert_eq!(ComponentCount::P4.to_u32(), 4);
    assert_eq!(ComponentCount::P1.to_i32(), 1);
    assert_eq!(ComponentCount::P4.to_i32(), 4);
}

#[test]
fn attribute_format_byte_sizes() {
    assert_eq!(AttributeFormatF::F16(ComponentCount::P3).byte_size(), 6);
    assert_eq!(AttributeFormatF::F32(ComponentCount::P4).byte_size(), 16);
    assert_eq!(AttributeFormatF::Fixed16_16(ComponentCount::P2).byte_size(), 8);
    assert_eq!(AttributeFormatF::I8(ComponentCount::P2, true).byte_size(), 2);
    assert_eq!(AttributeFormatF::U16(ComponentCount::P1, false).byte_size(), 2);
    assert_eq!(AttributeFormatF::I_2_10_10_10_REV.byte_size(), 4);
    assert_eq!(AttributeFormatF::U_2_10_10_10_REV.byte_size(), 4);
    assert_eq!(AttributeFormatF::U_10F_11F_11F_REV.byte_size(), 3);
    assert_eq!(AttributeFormatI::U16(ComponentCount::P3).byte_size(), 6);
    assert_eq!(AttributeFormatI::I32(ComponentCount::P2).byte_size(), 8);
    assert_eq!(AttributeFormatL::F64(ComponentCount::P4).byte_size(), 32);
    assert_eq!(AttributeFormat::F(AttributeFormatF::F32(ComponentCount::P2)).byte_size(), 8);
    assert_eq!(AttributeFormat::I(AttributeFormatI::U8(ComponentCount::P4)).byte_size(), 4);
    assert_eq!(AttributeFormat::L(AttributeFormatL::F64(ComponentCount::P1)).byte_size(), 8);
}

#[test]
fn attribute_format_components_and_types() {
    let f = AttributeFormatF::I16(ComponentCount::P3, true);
    assert_eq!(f.component_count(), ComponentCount::P3);
    assert_eq!(f.component_type(), 0x1402);
    assert!(f.should_normalize());
    assert!(!AttributeFormatF::F32(ComponentCount::P2).should_normalize());
    assert_eq!(AttributeFormatF::U_10F_11F_11F_REV.component_count(), ComponentCount::P3);
    assert_eq!(AttributeFormatF::I_2_10_10_10_REV.component_count(), ComponentCount::P4);
    assert_eq!(AttributeFormatF::F16(ComponentCount::P1).component_type(), 0x140B);
    assert_eq!(AttributeFormatI::U32(ComponentCount::P1).component_type(), 0x1405);
    assert_eq!(AttributeFormatL::F64(ComponentCount::P1).component_type(), 0x140A);
}

#[test]
fn target_constants_are_exact() {
    assert_eq!(BufferTarget::ArrayBuffer.as_u32(), 0x8892);
    assert_eq!(BufferTarget::ElementArrayBuffer.as_u32(), 0x8893);
    assert_eq!(BufferTarget::UniformBuffer.as_u32(), 0x8A11);
    assert_eq!(FramebufferTarget::DrawFramebuffer.as_u32(), 0x8CA9);
    assert_eq!(FramebufferTarget::ReadFramebuffer.as_u32(), 0x8CA8);
    assert_eq!(FramebufferTarget::Framebuffer.as_u32(), 0x8D40);
    assert_eq!(TextureTarget::Texture2D.as_u32(), 0x0DE1);
    assert_eq!(TextureTarget::Texture2DArray.as_u32(), 0x8C1A);
    assert_eq!(TextureTarget::TextureCubeMap.as_u32(), 0x8513);
}

#[test]
fn framebuffer_status_decodes_declared_constants_only() {
    assert_eq!(FramebufferStatus::from_raw(0x8CD5).unwrap(), FramebufferStatus::Complete);
    assert_eq!(FramebufferStatus::from_raw(0x8219).unwrap(), FramebufferStatus::Undefined);
    assert_eq!(
        FramebufferStatus::from_raw(0x8CDD).unwrap(),
        FramebufferStatus::Unsupported
    );
    assert!(FramebufferStatus::from_raw(0).is_none());
    assert!(FramebufferStatus::from_raw(0xFFFF).is_none());
    assert_eq!(FramebufferStatus::IncompleteMultisample.as_u32(), 0x8D56);
}

#[test]
fn texture_parameters_encode_their_constants() {
    assert_eq!(TextureFilter::Nearest.as_i32(), 0x2600);
    assert_eq!(TextureFilter::LinearMipmapLinear.as_i32(), 0x2703);
    assert_eq!(TextureFilterKey::TextureMinFilter.as_u32(), 0x2801);
    assert_eq!(TextureFilterKey::TextureMagFilter.as_u32(), 0x2800);
    assert_eq!(TextureWrap::ClampToEdge.as_i32(), 0x812F);
    assert_eq!(TextureWrap::Repeat.as_i32(), 0x2901);
    assert_eq!(TextureWrapKey::TextureWrapR.as_u32(), 0x8072);
}

#[test]
fn texture_units_are_bounds_checked() {
    let max = MaxCombinedTextureImageUnits::from_u32(16);
    assert_eq!(max.get(), 16);
    assert_eq!(TextureUnit::new(0, max).unwrap().as_u32(), 0x84C0);
    assert_eq!(TextureUnit::new(15, max).unwrap().to_u32(), 0x84CF);
    assert!(TextureUnit::new(16, max).is_none());
    assert!(TextureUnit::new(17, max).is_none());
}

#[test]
fn framebuffer_attachments_are_bounds_checked() {
    let max = MaxColorAttachments::from_u32(8);
    assert_eq!(max.to_u32(), 8);
    assert_eq!(FramebufferAttachment::new(0, max).unwrap().as_u32(), 0x8CE0);
    assert_eq!(FramebufferAttachment::new(7, max).unwrap().to_u32(), 0x8CE7);
    assert!(FramebufferAttachment::new(8, max).is_none());
    assert_eq!(FramebufferAttachment::depth().as_u32(), 0x8D00);
    assert_eq!(FramebufferAttachment::stencil().as_u32(), 0x8D20);
    assert_eq!(FramebufferAttachment::depth_stencil().as_u32(), 0x821A);
}

#[test]
fn param_symbols_encode_their_constants() {
    assert_eq!(gl_typed::param::ShaderType.as_u32(), 0x8B4F);
    assert_eq!(gl_typed::param::CompileStatus.as_u32(), 0x8B81);
    assert_eq!(gl_typed::param::LinkStatus.as_u32(), 0x8B82);
    assert_eq!(gl_typed::param::InfoLogLength.as_u32(), 0x8B84);
    assert_eq!(gl_typed::param::AttachedShaders.as_u32(), 0x8B85);
    assert_eq!(gl_typed::param::ComputeWorkGroupSize.as_u32(), 0x8267);
    assert_eq!(gl_typed::param::GeometryOutputType.as_u32(), 0x8918);
}

#[test]
fn viewport_tracks_its_rectangle() {
    let vp = Viewport::new(640, 480);
    assert_eq!(vp.x(), 0);
    assert_eq!(vp.y(), 0);
    assert_eq!(vp.width(), 640);
    assert_eq!(vp.height(), 480);

    let mut vp = Viewport::with_position(10, 20, 30, 40);
    assert_eq!((vp.x(), vp.y(), vp.width(), vp.height()), (10, 20, 30, 40));
    vp.set_position(-5, 6);
    vp.set_size(7, 8);
    assert_eq!((vp.x(), vp.y(), vp.width(), vp.height()), (-5, 6, 7, 8));
}

#[test]
fn casts_relabel_the_same_bits() {
    assert_eq!(i32::cast_from(0xFFFF_FFFFu32), -1);
    assert_eq!(u32::cast_from(-1i32), 0xFFFF_FFFF);
    assert_eq!(i32::cast_from(7u32), 7);
    let x: i32 = 0x8000_0000u32.cast_into();
    assert_eq!(x, i32::MIN);
    let y: u32 = i32::MIN.cast_into();
    assert_eq!(y, 0x8000_0000);
    let same: u32 = 5u32.cast_into();
    assert_eq!(same, 5);
}
