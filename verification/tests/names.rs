use std::mem::size_of;
use gl_typed::name::BufferName;
use gl_typed::name::ProgramPipelineName;
use gl_typed::name::QueryName;
use gl_typed::name::RenderbufferName;
use gl_typed::name::SamplerName;
use gl_typed::name::TransformFeedbackName;
use gl_typed::name::FramebufferName;
use gl_typed::name::NonDefaultFramebufferName;
use gl_typed::name::OptionName;
use gl_typed::name::ProgramName;
use gl_typed::name::ShaderName;
use gl_typed::name::TextureName;
use gl_typed::name::VertexArrayName;

#[test]
fn create_nonzero_yields_present_and_reads_back() {
    for raw in [1u32, 2, 42, 0x8000_0000, u32::MAX] {
        let name = ShaderName::new(raw).unwrap();
        assert_eq!(name.to_u32(), raw);
        assert_eq!(name.into_u32(), raw);
    }
    assert_eq!(BufferName::new(7).unwrap().to_u32(), 7);
    assert_eq!(ProgramName::new(3).unwrap().to_u32(), 3);
    assert_eq!(TextureName::new(9).unwrap().into_u32(), 9);
    assert_eq!(VertexArrayName::new(11).unwrap().to_u32(), 11);
}

#[test]
fn create_zero_yields_absent() {
    assert!(ShaderName::new(0).is_err());
    assert!(BufferName::new(0).is_err());
    assert!(ProgramName::new(0).is_err());
    assert!(TextureName::new(0).is_err());
    assert!(VertexArrayName::new(0).is_err());
    assert!(NonDefaultFramebufferName::new(0).is_err());
    assert!(RenderbufferName::new(0).is_err());
    assert!(SamplerName::new(0).is_err());
    assert!(QueryName::new(0).is_err());
    assert!(ProgramPipelineName::new(0).is_err());
    assert!(TransformFeedbackName::new(0).is_err());
}

#[test]
fn every_name_kind_reads_back_its_raw_value() {
    assert_eq!(RenderbufferName::new(21).unwrap().to_u32(), 21);
    assert_eq!(SamplerName::new(22).unwrap().to_u32(), 22);
    assert_eq!(QueryName::new(23).unwrap().to_u32(), 23);
    assert_eq!(ProgramPipelineName::new(24).unwrap().to_u32(), 24);
    assert_eq!(TransformFeedbackName::new(25).unwrap().to_u32(), 25);
    assert_eq!(NonDefaultFramebufferName::new(26).unwrap().to_u32(), 26);
}

#[test]
fn optional_name_storage_equals_name_storage() {
    assert_eq!(size_of::<OptionName<BufferName>>(), size_of::<BufferName>());
    assert_eq!(size_of::<OptionName<ShaderName>>(), size_of::<ShaderName>());
    assert_eq!(size_of::<OptionName<ProgramName>>(), size_of::<ProgramName>());
    assert_eq!(size_of::<OptionName<TextureName>>(), size_of::<TextureName>());
    assert_eq!(size_of::<BufferName>(), size_of::<u32>());
    assert_eq!(size_of::<OptionName<BufferName>>(), size_of::<u32>());
}

#[test]
fn optional_name_conversions() {
    let present: OptionName<BufferName> = OptionName::from_u32(5);
    assert!(present.is_some());
    assert!(!present.is_none());
    assert_eq!(present.to_u32(), 5);
    assert_eq!(present.to_name().unwrap().to_u32(), 5);

    let absent: OptionName<BufferName> = OptionName::absent();
    assert!(absent.is_none());
    assert_eq!(absent.to_u32(), 0);
    assert!(absent.to_name().is_none());

    let name = BufferName::new(6).unwrap();
    let wrapped = OptionName::from_name(name);
    assert_eq!(wrapped.to_u32(), 6);

    let from_some = OptionName::from_option(Some(BufferName::new(8).unwrap()));
    assert_eq!(from_some.to_u32(), 8);
    let from_none: OptionName<BufferName> = OptionName::from_option(None);
    assert!(from_none.is_none());

    assert_eq!(present, OptionName::from_u32(5));
    assert_ne!(present, absent);
}

#[test]
fn framebuffer_name_raw_values() {
    let non_default = NonDefaultFramebufferName::new(4).unwrap();
    let name = FramebufferName::NonDefault(non_default);
    assert_eq!(name.to_u32(), 4);
    assert_eq!(name.into_u32(), 4);
    assert_eq!(FramebufferName::Default.to_u32(), 0);
    assert_eq!(FramebufferName::Default.into_u32(), 0);
    assert_eq!(FramebufferName::default(), FramebufferName::Default);
}
