use mfekglif::icons::{chain, _KNIFE, _MEASURE, _PEN, _PENCIL, _UFO, _ARROWRIGHT};

#[test]
fn chain_joins_two_icons_into_one_label() {
    let label = chain(&[&_PEN[..], &_PENCIL[..]]);
    assert_eq!(label, vec![239, 128, 131, 239, 128, 132, 0]);
}

#[test]
fn chain_of_one_icon_is_the_icon() {
    assert_eq!(chain(&[&_KNIFE[..]]), _KNIFE.to_vec());
}

#[test]
fn chain_of_no_icons_is_empty() {
    let none: [&[u8]; 0] = [];
    assert_eq!(chain(&none), Vec::<u8>::new());
}

#[test]
fn chain_of_three_icons_drops_two_nul_bytes() {
    let label = chain(&[&_KNIFE[..], &_MEASURE[..], &_UFO[..]]);
    assert_eq!(label.len(), 12 - 2);
    assert_eq!(label, vec![239, 128, 128, 239, 128, 129, 239, 128, 183, 0]);
    assert_eq!(label.last(), Some(&0));
}

#[test]
fn chain_keeps_the_last_icon_whole() {
    let text: &[u8] = b"ab";
    let label = chain(&[&_ARROWRIGHT[..], text]);
    assert_eq!(label, vec![239, 128, 148, b'a', b'b']);
}

#[test]
fn chain_takes_a_nul_left_by_an_empty_icon() {
    // an empty icon takes off the byte before it, which must be a NUL byte too
    let first: &[u8] = &[7, 0, 0];
    let empty: &[u8] = &[];
    let last: &[u8] = &[5];
    assert_eq!(chain(&[first, empty, last]), vec![7, 5]);
}

#[test]
fn icon_constants_are_private_use_characters() {
    assert_eq!(std::str::from_utf8(&_PEN[..3]).unwrap(), "\u{F003}");
    assert_eq!(std::str::from_utf8(&_UFO[..3]).unwrap(), "\u{F037}");
}

#[test]
fn chaining_chained_labels_is_chaining_all_icons() {
    let a = chain(&[&_KNIFE[..], &_PEN[..]]);
    let b = chain(&[&_MEASURE[..], &_UFO[..]]);
    let whole = chain(&[&_KNIFE[..], &_PEN[..], &_MEASURE[..], &_UFO[..]]);
    assert_eq!(chain(&[&a[..], &b[..]]), whole);
}
