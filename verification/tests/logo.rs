use cartridge_reader::logo::{reference_signature_bytes, LOGO_END, LOGO_START};
use cartridge_reader::CartridgeReader;

#[test]
fn reference_signature_is_the_boot_logo() {
    let expected: [u8; 48] = [
        0xCE, 0xED, 0x66, 0x66, 0xCC, 0x0D, 0x00, 0x0B, 0x03, 0x73, 0x00, 0x83, 0x00, 0x0C,
        0x00, 0x0D, 0x00, 0x08, 0x11, 0x1F, 0x88, 0x89, 0x00, 0x0E, 0xDC, 0xCC, 0x6E, 0xE6,
        0xDD, 0xDD, 0xD9, 0x99, 0xBB, 0xBB, 0x67, 0x63, 0x6E, 0x0E, 0xEC, 0xCC, 0xDD, 0xDC,
        0x99, 0x9F, 0xBB, 0xB9, 0x33, 0x3E,
    ];
    assert_eq!(reference_signature_bytes(), expected);
}

#[test]
fn reference_signature_fills_the_place_of_the_logo() {
    assert_eq!(LOGO_START, 0x0104);
    assert_eq!(LOGO_END, 0x0134);
    assert_eq!(LOGO_END - LOGO_START, reference_signature_bytes().len());
}

#[test]
fn reference_signature_holds_six_zero_bytes() {
    let zeros = reference_signature_bytes().iter().filter(|&&byte| byte == 0).count();
    assert_eq!(zeros, 6);
}

#[test]
fn image_that_starts_with_the_logo_elsewhere_does_not_pass() {
    let mut data = vec![0xFFu8; 0x150];
    data[..48].copy_from_slice(&reference_signature_bytes());
    let mut reader = CartridgeReader::new();
    reader.load_memory(&data);
    assert_eq!(reader.count_logo_matches(), 0);
}
