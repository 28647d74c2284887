use hexapoda::buffer::nybble_from_hex;

#[test]
fn nybble_from_hex_case_doesnt_matter() {
    for character in 'a'..='f' {
        assert_eq!(nybble_from_hex(character), nybble_from_hex(character.to_ascii_uppercase()));
    }
}

#[test]
fn nybble_from_hex_digits_are_correct() {
    for (index, character) in ('0'..='9').enumerate() {
        assert_eq!(nybble_from_hex(character), Some(index as u8));
    }
}

#[test]
fn nybble_from_hex_letters_are_ten_to_fifteen() {
    assert_eq!(nybble_from_hex('a'), Some(10));
    assert_eq!(nybble_from_hex('F'), Some(15));
    assert_eq!(nybble_from_hex('g'), None);
    assert_eq!(nybble_from_hex('G'), None);
    assert_eq!(nybble_from_hex(' '), None);
    assert_eq!(nybble_from_hex('é'), None);
}
