use cartridge_reader::text::{decimal_string, hexadecimal_list_string, hexadecimal_string};

#[test]
fn decimal_numerals_of_chosen_values() {
    assert_eq!(decimal_string(0), "0");
    assert_eq!(decimal_string(6), "6");
    assert_eq!(decimal_string(9), "9");
    assert_eq!(decimal_string(10), "10");
    assert_eq!(decimal_string(48), "48");
    assert_eq!(decimal_string(99), "99");
    assert_eq!(decimal_string(100), "100");
    assert_eq!(decimal_string(101), "101");
    assert_eq!(decimal_string(110), "110");
    assert_eq!(decimal_string(255), "255");
}

#[test]
fn decimal_numerals_agree_with_the_standard_formatter() {
    for n in 0..=255u8 {
        assert_eq!(decimal_string(n), format!("{}", n));
    }
}

#[test]
fn hexadecimal_numerals_of_chosen_values() {
    assert_eq!(hexadecimal_string(0x00), "0");
    assert_eq!(hexadecimal_string(0x09), "9");
    assert_eq!(hexadecimal_string(0x0A), "a");
    assert_eq!(hexadecimal_string(0x0F), "f");
    assert_eq!(hexadecimal_string(0x10), "10");
    assert_eq!(hexadecimal_string(0x4E), "4e");
    assert_eq!(hexadecimal_string(0xA0), "a0");
    assert_eq!(hexadecimal_string(0xFF), "ff");
}

#[test]
fn hexadecimal_numerals_agree_with_the_standard_formatter() {
    for n in 0..=255u8 {
        assert_eq!(hexadecimal_string(n), format!("{:x?}", n));
    }
}

#[test]
fn hexadecimal_lists_of_chosen_values() {
    assert_eq!(hexadecimal_list_string(&[]), "[]");
    assert_eq!(hexadecimal_list_string(&[0x00]), "[0]");
    assert_eq!(hexadecimal_list_string(&[0x4E, 0x5F]), "[4e, 5f]");
    assert_eq!(hexadecimal_list_string(&[0x00, 0x0A, 0xFF]), "[0, a, ff]");
}

#[test]
fn hexadecimal_lists_agree_with_the_standard_formatter() {
    for high in 0..=255u8 {
        for low in [0x00u8, 0x07, 0x0A, 0x10, 0x7F, 0x80, 0xFF] {
            let pair = [high, low];
            assert_eq!(hexadecimal_list_string(&pair), format!("{:x?}", &pair[..]));
        }
    }
    let long: Vec<u8> = (0..=255u8).collect();
    assert_eq!(hexadecimal_list_string(&long), format!("{:x?}", long));
}
