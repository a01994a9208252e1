use std::mem::size_of;

use gl_typed::locations::AttributeLocation;
use gl_typed::locations::OptionAttributeLocation;
use gl_typed::locations::OptionUniformBlockIndex;
use gl_typed::locations::UniformBlockIndex;
use gl_typed::locations::VertexArrayBufferBindingIndex;
use gl_typed::num::NonMinusOneI32;
use gl_typed::uniform_location::OptionUniformLocation;
use gl_typed::uniform_location::UniformLocation;

#[test]
fn attribute_location_size_of_option_self_equals_size_of_u32() {
    assert_eq!(size_of::<Option<AttributeLocation>>(), size_of::<u32>());
}

#[test]
fn uniform_location_size_of_option_self_equals_size_of_u32() {
    assert_eq!(
        size_of::<Option<UniformLocation<[f32; 4]>>>(),
        size_of::<u32>()
    );
}

#[test]
fn non_minus_one_round_trips_every_other_value() {
    for n in [0, 1, 5, -2, -100, i32::MIN, i32::MAX, 0x7FFF_FFFE] {
        let v = NonMinusOneI32::new(n).unwrap();
        assert_eq!(v.get(), n);
    }
    assert!(NonMinusOneI32::new(-1).is_none());
}

#[test]
fn attribute_location_excludes_the_sentinel() {
    assert!(AttributeLocation::from_i32(-1).is_none());
    let loc = AttributeLocation::from_i32(3).unwrap();
    assert_eq!(loc.to_i32(), 3);
    assert_eq!(loc.into_i32(), 3);
    let negative = AttributeLocation::from_i32(-7).unwrap();
    assert_eq!(negative.to_i32(), -7);
}

#[test]
fn option_attribute_location_keeps_the_sentinel_in_band() {
    let present = OptionAttributeLocation::new(2);
    assert!(present.is_some());
    assert_eq!(present.to_i32(), 2);
    assert_eq!(present.to_option().unwrap().to_i32(), 2);

    let absent = OptionAttributeLocation::none();
    assert!(absent.is_none());
    assert_eq!(absent.to_i32(), -1);
    assert!(absent.to_option().is_none());

    let from_some = OptionAttributeLocation::from_option(AttributeLocation::from_i32(6));
    assert_eq!(from_some.to_i32(), 6);
    let from_none = OptionAttributeLocation::from_option(None);
    assert!(from_none.is_none());
}

#[test]
fn uniform_location_excludes_the_sentinel() {
    assert!(UniformLocation::<f32>::from_i32(-1).is_none());
    let loc = UniformLocation::<f32>::from_i32(4).unwrap();
    assert_eq!(loc.as_i32(), 4);
    assert_eq!(loc.to_i32(), 4);
    assert_eq!(loc.into_i32(), 4);

    let present: OptionUniformLocation<f32> = OptionUniformLocation::new(4);
    assert!(present.is_some());
    assert_eq!(present.to_option().unwrap().as_i32(), 4);
    let absent: OptionUniformLocation<f32> = OptionUniformLocation::none();
    assert!(absent.is_none());
    assert!(absent.to_option().is_none());
}

#[test]
fn uniform_block_index_excludes_its_sentinel() {
    assert!(UniformBlockIndex::from_u32(u32::MAX).is_none());
    let index = UniformBlockIndex::from_u32(0).unwrap();
    assert_eq!(index.to_u32(), 0);
    assert_eq!(index.into_u32(), 0);

    let present = OptionUniformBlockIndex::new(3);
    assert!(present.is_some());
    assert_eq!(present.to_option().unwrap().to_u32(), 3);
    let absent = OptionUniformBlockIndex::none();
    assert!(absent.is_none());
    assert!(absent.to_option().is_none());
}

#[test]
fn binding_index_round_trips() {
    let index = VertexArrayBufferBindingIndex::from_u32(13);
    assert_eq!(index.to_u32(), 13);
}
