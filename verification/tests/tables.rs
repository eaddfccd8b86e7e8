use cartridge_reader::labels::{
    cartridge_type_label, color_label, destination_label, licensee_label, ram_size_label,
    rom_size_label, super_label,
};

#[test]
fn color_flag_names_the_color_console() {
    assert_eq!(color_label(0x80), "Game Boy Color");
}

#[test]
fn every_other_color_flag_names_the_plain_console() {
    for flag in 0..=255u8 {
        if flag != 0x80 {
            assert_eq!(color_label(flag), "Game Boy");
        }
    }
    assert_eq!(color_label(0x00), "Game Boy");
    assert_eq!(color_label(0xC0), "Game Boy");
}

#[test]
fn super_flag_is_a_single_value() {
    for flag in 0..=255u8 {
        let expected = if flag == 0x03 { "enables" } else { "does not enable" };
        assert_eq!(super_label(flag), expected);
    }
}

#[test]
fn cartridge_types_have_their_labels() {
    let table: [(u8, &str); 26] = [
        (0x00, "ROM ONLY."),
        (0x01, "ROM + MBC1."),
        (0x02, "ROM + MBC1 + RAM."),
        (0x03, "ROM + MBC1 + RAM + BATT."),
        (0x05, "ROM + MBC2."),
        (0x06, "ROM + MBC2  BATT."),
        (0x08, "ROM + RAM."),
        (0x09, "ROM + RAM + BATT."),
        (0x0B, "ROM + MMM01."),
        (0x0C, "ROM + MMM01 + SRAM."),
        (0x0D, "ROM + + MMM01 + SRAM + BATT."),
        (0x0F, "ROM + MBC3 + TIMER + BATT."),
        (0x10, "ROM + MBC3 + TIMER + RAM + BATT."),
        (0x11, "ROM + MBC3."),
        (0x12, "ROM + MBC3 + RAM."),
        (0x13, "ROM + MBC3 + RAM + BATT."),
        (0x19, "ROM + MBC5."),
        (0x1A, "ROM + MBC5 + RAM."),
        (0x1B, "ROM + MBC5 + RAM + BATT."),
        (0x1C, "ROM + MBC5 + RUMBLE."),
        (0x1D, "ROM + MBC5 + RUMBLE + SRAM."),
        (0x1E, "ROM + MBC5 + RUMBLE + SRAM + BATT."),
        (0x1F, "Pocket Camera."),
        (0xFD, "Bandai TAMA5"),
        (0xFE, "Hudson HuC - 3"),
        (0xFF, "Hudson HuC - 1"),
    ];
    for (code, label) in table {
        assert_eq!(cartridge_type_label(code), label);
    }
}

#[test]
fn unlisted_cartridge_types_are_not_recognized() {
    let listed: [u8; 26] = [
        0x00, 0x01, 0x02, 0x03, 0x05, 0x06, 0x08, 0x09, 0x0B, 0x0C, 0x0D, 0x0F, 0x10, 0x11,
        0x12, 0x13, 0x19, 0x1A, 0x1B, 0x1C, 0x1D, 0x1E, 0x1F, 0xFD, 0xFE, 0xFF,
    ];
    let mut unlisted: u32 = 0;
    for code in 0..=255u8 {
        let label = cartridge_type_label(code);
        if listed.contains(&code) {
            assert_ne!(label, "ERROR, Cartridge type not recognized");
        } else {
            assert_eq!(label, "ERROR, Cartridge type not recognized");
            unlisted += 1;
        }
    }
    assert_eq!(unlisted, 230);
    assert_eq!(cartridge_type_label(0x04), "ERROR, Cartridge type not recognized");
    assert_eq!(cartridge_type_label(0x20), "ERROR, Cartridge type not recognized");
    assert_eq!(cartridge_type_label(0xFC), "ERROR, Cartridge type not recognized");
}

#[test]
fn rom_sizes_have_their_labels() {
    let table: [(u8, &str); 10] = [
        (0x00, "32KB (2 banks)"),
        (0x01, "64KB (4 banks)"),
        (0x02, "128KB (8 banks)"),
        (0x03, "256KB (16 banks)"),
        (0x04, "512KB (32 banks)"),
        (0x05, "1MB (64 banks)"),
        (0x06, "2MB (128 banks)"),
        (0x52, "1.1MB (72 banks)"),
        (0x53, "1.2MB (80 banks)"),
        (0x54, "1.5MB (96 banks)"),
    ];
    for (code, label) in table {
        assert_eq!(rom_size_label(code), label);
    }
}

#[test]
fn unlisted_rom_sizes_are_not_recognized() {
    for code in 0..=255u8 {
        let listed = code <= 0x06 || (0x52..=0x54).contains(&code);
        let label = rom_size_label(code);
        assert_eq!(label == "ERROR, ROM size not recognized", !listed);
    }
    assert_eq!(rom_size_label(0x07), "ERROR, ROM size not recognized");
    assert_eq!(rom_size_label(0x51), "ERROR, ROM size not recognized");
    assert_eq!(rom_size_label(0x55), "ERROR, ROM size not recognized");
}

#[test]
fn ram_sizes_have_their_labels() {
    assert_eq!(ram_size_label(0x00), "0KB (no RAM)");
    assert_eq!(ram_size_label(0x01), "2KB (1 bank)");
    assert_eq!(ram_size_label(0x02), "8KB (1 bank)");
    assert_eq!(ram_size_label(0x03), "32KB (4 banks)");
    assert_eq!(ram_size_label(0x04), "128KB (16 banks)");
}

#[test]
fn unlisted_ram_sizes_are_not_recognized() {
    for code in 5..=255u8 {
        assert_eq!(ram_size_label(code), "ERROR, RAM size not recognized");
    }
}

#[test]
fn destinations_have_their_labels() {
    assert_eq!(destination_label(0x00), "Japanese");
    assert_eq!(destination_label(0x01), "Non-Japanese");
}

#[test]
fn unlisted_destinations_are_not_recognized() {
    for code in 2..=255u8 {
        assert_eq!(destination_label(code), "ERROR, destination code  not recognized");
    }
}

#[test]
fn old_licensee_codes_have_their_labels() {
    assert_eq!(licensee_label(0x79, b"01"), Some("Accolade"));
    assert_eq!(licensee_label(0xA4, b"01"), Some("Konami"));
    assert_eq!(licensee_label(0x79, &[0xFF, 0xFF]), Some("Accolade"));
    assert_eq!(licensee_label(0xA4, &[]), Some("Konami"));
}

#[test]
fn unlisted_licensee_codes_are_not_recognized() {
    for code in 0..=255u8 {
        if code != 0x33 && code != 0x79 && code != 0xA4 {
            assert_eq!(
                licensee_label(code, &[0xFF, 0xFF]),
                Some("ERROR, licensee code not recognized")
            );
        }
    }
}

#[test]
fn new_licensee_code_is_read_as_text() {
    assert_eq!(licensee_label(0x33, b"01"), Some("01"));
    assert_eq!(licensee_label(0x33, b"A4"), Some("A4"));
    assert_eq!(licensee_label(0x33, &[0x00, 0x00]), Some("\0\0"));
    assert_eq!(licensee_label(0x33, &[0xC3, 0xA9]), Some("\u{e9}"));
}

#[test]
fn new_licensee_code_that_is_no_text_has_no_label() {
    assert_eq!(licensee_label(0x33, &[0xFF, 0x30]), None);
    assert_eq!(licensee_label(0x33, &[0x30, 0x80]), None);
    assert_eq!(licensee_label(0x33, &[0xC3, 0x28]), None);
}
