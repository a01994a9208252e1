use gl_typed::name::all_present;
use gl_typed::name::unwrap_all;
use gl_typed::name::unwrap_slice;
use gl_typed::name::wrap_all;
use gl_typed::name::wrap_slice;
use gl_typed::name::BufferName;
use gl_typed::name::OptionName;
use gl_typed::name::TextureName;

fn buffer_names(raws: &[u32]) -> Vec<BufferName> {
    raws.iter().map(|&raw| BufferName::new(raw).unwrap()).collect()
}

#[test]
fn wrap_then_unwrap_round_trips() {
    for n in [0usize, 1, 2, 3, 31, 32] {
        let raws: Vec<u32> = (0..n).map(|i| i as u32 + 1).collect();
        let names = buffer_names(&raws);
        let wrapped = wrap_all(names);
        assert_eq!(wrapped.len(), n);
        assert!(wrapped.iter().all(|w| w.is_some()));
        let recovered = unwrap_all(wrapped).unwrap();
        let recovered_raws: Vec<u32> = recovered.iter().map(|b| b.to_u32()).collect();
        assert_eq!(recovered_raws, raws);
    }
}

#[test]
fn unwrap_with_absent_fails_and_returns_input_unchanged() {
    let cases: [&[u32]; 4] = [&[0], &[0, 1, 2], &[1, 0, 2], &[1, 2, 0]];
    for raws in cases {
        let input: Vec<OptionName<TextureName>> =
            raws.iter().map(|&raw| OptionName::from_u32(raw)).collect();
        let copy = input.clone();
        match unwrap_all(input) {
            Ok(_) => panic!("an absent element must fail the backward conversion"),
            Err(returned) => {
                assert_eq!(returned.len(), copy.len());
                for (a, b) in returned.iter().zip(copy.iter()) {
                    assert_eq!(a.to_u32(), b.to_u32());
                }
            }
        }
    }
}

#[test]
fn unwrap_all_present_succeeds() {
    let input: Vec<OptionName<TextureName>> =
        [3u32, 1, 4].iter().map(|&raw| OptionName::from_u32(raw)).collect();
    let names = unwrap_all(input).unwrap();
    let raws: Vec<u32> = names.iter().map(|n| n.to_u32()).collect();
    assert_eq!(raws, vec![3, 1, 4]);
}

#[test]
fn slice_conversions_match_owned_ones() {
    let names = buffer_names(&[5, 6, 7]);
    let wrapped = wrap_slice(&names);
    assert_eq!(wrapped.len(), 3);
    assert!(all_present(&wrapped));
    let recovered = unwrap_slice(&wrapped).unwrap();
    let raws: Vec<u32> = recovered.iter().map(|b| b.to_u32()).collect();
    assert_eq!(raws, vec![5, 6, 7]);

    let with_hole: Vec<OptionName<BufferName>> =
        [5u32, 0, 7].iter().map(|&raw| OptionName::from_u32(raw)).collect();
    assert!(!all_present(&with_hole));
    assert!(unwrap_slice(&with_hole).is_none());
}

#[test]
fn empty_sequences_convert_trivially() {
    let empty: Vec<BufferName> = Vec::new();
    let wrapped = wrap_all(empty);
    assert!(wrapped.is_empty());
    let recovered = unwrap_all(wrapped).unwrap();
    assert!(recovered.is_empty());
    let none: &[OptionName<BufferName>] = &[];
    assert!(all_present(none));
}
