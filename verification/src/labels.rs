//! The tables that turn a raw header byte into the words that describe it.
//!
//! Every table is total: a byte that it does not list gets a label of its own that says so.

use vstd::prelude::*;
use vstd::utf8::*;
use crate::text::decode_text;

verus! {

/// The flag value that marks a cartridge as made for the colour console.
pub const COLOR_FLAG: u8 = 0x80;

/// The flag value that marks a cartridge as using the functions of the Super Game Boy.
pub const SUPER_FLAG: u8 = 0x03;

/// The console that a colour flag names.
pub open spec fn color_text(flag: u8) -> Seq<char> {
    if flag == COLOR_FLAG {
        "Game Boy Color"@
    } else {
        "Game Boy"@
    }
}

/// What a cartridge with the given flag does about the Super Game Boy.
pub open spec fn super_text(flag: u8) -> Seq<char> {
    if flag == SUPER_FLAG {
        "enables"@
    } else {
        "does not enable"@
    }
}

/// The label of a cartridge type code that the table does not list.
pub open spec fn cartridge_type_unknown() -> Seq<char> {
    "ERROR, Cartridge type not recognized"@
}

/// The label of a ROM size code that the table does not list.
pub open spec fn rom_size_unknown() -> Seq<char> {
    "ERROR, ROM size not recognized"@
}

/// The label of a RAM size code that the table does not list.
pub open spec fn ram_size_unknown() -> Seq<char> {
    "ERROR, RAM size not recognized"@
}

/// The label of a destination code that the table does not list.
pub open spec fn destination_unknown() -> Seq<char> {
    "ERROR, destination code  not recognized"@
}

/// The label of a licensee code that the table does not list.
pub open spec fn licensee_unknown() -> Seq<char> {
    "ERROR, licensee code not recognized"@
}

/// Whether the table of cartridge types lists `code`.
pub open spec fn cartridge_type_known(code: u8) -> bool {
    ||| code <= 0x03
    ||| 0x05 <= code <= 0x06
    ||| 0x08 <= code <= 0x09
    ||| 0x0B <= code <= 0x0D
    ||| 0x0F <= code <= 0x13
    ||| 0x19 <= code <= 0x1F
    ||| 0xFD <= code
}

/// The hardware that a cartridge type code names.
pub open spec fn cartridge_type_text(code: u8) -> Seq<char> {
    match code {
        0x00 => "ROM ONLY."@,
        0x01 => "ROM + MBC1."@,
        0x02 => "ROM + MBC1 + RAM."@,
        0x03 => "ROM + MBC1 + RAM + BATT."@,
        0x05 => "ROM + MBC2."@,
        0x06 => "ROM + MBC2  BATT."@,
        0x08 => "ROM + RAM."@,
        0x09 => "ROM + RAM + BATT."@,
        0x0B => "ROM + MMM01."@,
        0x0C => "ROM + MMM01 + SRAM."@,
        0x0D => "ROM + + MMM01 + SRAM + BATT."@,
        0x0F => "ROM + MBC3 + TIMER + BATT."@,
        0x10 => "ROM + MBC3 + TIMER + RAM + BATT."@,
        0x11 => "ROM + MBC3."@,
        0x12 => "ROM + MBC3 + RAM."@,
        0x13 => "ROM + MBC3 + RAM + BATT."@,
        0x19 => "ROM + MBC5."@,
        0x1A => "ROM + MBC5 + RAM."@,
        0x1B => "ROM + MBC5 + RAM + BATT."@,
        0x1C => "ROM + MBC5 + RUMBLE."@,
        0x1D => "ROM + MBC5 + RUMBLE + SRAM."@,
        0x1E => "ROM + MBC5 + RUMBLE + SRAM + BATT."@,
        0x1F => "Pocket Camera."@,
        0xFD => "Bandai TAMA5"@,
        0xFE => "Hudson HuC - 3"@,
        0xFF => "Hudson HuC - 1"@,
        _ => cartridge_type_unknown(),
    }
}

/// Whether the table of ROM sizes lists `code`.
pub open spec fn rom_size_known(code: u8) -> bool {
    code <= 0x06 || 0x52 <= code <= 0x54
}

/// The size of the ROM, and the number of its banks, that a ROM size code names.
pub open spec fn rom_size_text(code: u8) -> Seq<char> {
    match code {
        0x00 => "32KB (2 banks)"@,
        0x01 => "64KB (4 banks)"@,
        0x02 => "128KB (8 banks)"@,
        0x03 => "256KB (16 banks)"@,
        0x04 => "512KB (32 banks)"@,
        0x05 => "1MB (64 banks)"@,
        0x06 => "2MB (128 banks)"@,
        0x52 => "1.1MB (72 banks)"@,
        0x53 => "1.2MB (80 banks)"@,
        0x54 => "1.5MB (96 banks)"@,
        _ => rom_size_unknown(),
    }
}

/// Whether the table of RAM sizes lists `code`.
pub open spec fn ram_size_known(code: u8) -> bool {
    code <= 0x04
}

/// The size of the cartridge's RAM, and the number of its banks, that a RAM size code names.
pub open spec fn ram_size_text(code: u8) -> Seq<char> {
    match code {
        0x00 => "0KB (no RAM)"@,
        0x01 => "2KB (1 bank)"@,
        0x02 => "8KB (1 bank)"@,
        0x03 => "32KB (4 banks)"@,
        0x04 => "128KB (16 banks)"@,
        _ => ram_size_unknown(),
    }
}

/// Whether the table of destinations lists `code`.
pub open spec fn destination_known(code: u8) -> bool {
    code <= 0x01
}

/// The market that a destination code names.
pub open spec fn destination_text(code: u8) -> Seq<char> {
    match code {
        0x00 => "Japanese"@,
        0x01 => "Non-Japanese"@,
        _ => destination_unknown(),
    }
}

/// Whether the table of licensees lists `code`, the reference to the new code included.
pub open spec fn licensee_known(code: u8) -> bool {
    code == 0x33 || code == 0x79 || code == 0xA4
}

/// The publisher that an old licensee code names. The code that refers to the new licensee
/// code names the text of `new_code`, and nothing where `new_code` is no UTF-8 text.
pub open spec fn licensee_text(code: u8, new_code: Seq<u8>) -> Option<Seq<char>> {
    match code {
        0x33 => if valid_utf8(new_code) {
            Some(decode_utf8(new_code))
        } else {
            None
        },
        0x79 => Some("Accolade"@),
        0xA4 => Some("Konami"@),
        _ => Some(licensee_unknown()),
    }
}

/// Names the console that a colour flag stands for.
pub fn color_label(flag: u8) -> (label: &'static str)
    ensures
        label@ == color_text(flag),
{
    if flag == COLOR_FLAG {
        "Game Boy Color"
    } else {
        "Game Boy"
    }
}

/// Says what a cartridge with the given flag does about the Super Game Boy.
pub fn super_label(flag: u8) -> (label: &'static str)
    ensures
        label@ == super_text(flag),
{
    if flag == SUPER_FLAG {
        "enables"
    } else {
        "does not enable"
    }
}

/// Names the hardware of a cartridge type code.
pub fn cartridge_type_label(code: u8) -> (label: &'static str)
    ensures
        label@ == cartridge_type_text(code),
{
    match code {
        0x00 => "ROM ONLY.",
        0x01 => "ROM + MBC1.",
        0x02 => "ROM + MBC1 + RAM.",
        0x03 => "ROM + MBC1 + RAM + BATT.",
        0x05 => "ROM + MBC2.",
        0x06 => "ROM + MBC2  BATT.",
        0x08 => "ROM + RAM.",
        0x09 => "ROM + RAM + BATT.",
        0x0B => "ROM + MMM01.",
        0x0C => "ROM + MMM01 + SRAM.",
        0x0D => "ROM + + MMM01 + SRAM + BATT.",
        0x0F => "ROM + MBC3 + TIMER + BATT.",
        0x10 => "ROM + MBC3 + TIMER + RAM + BATT.",
        0x11 => "ROM + MBC3.",
        0x12 => "ROM + MBC3 + RAM.",
        0x13 => "ROM + MBC3 + RAM + BATT.",
        0x19 => "ROM + MBC5.",
        0x1A => "ROM + MBC5 + RAM.",
        0x1B => "ROM + MBC5 + RAM + BATT.",
        0x1C => "ROM + MBC5 + RUMBLE.",
        0x1D => "ROM + MBC5 + RUMBLE + SRAM.",
        0x1E => "ROM + MBC5 + RUMBLE + SRAM + BATT.",
        0x1F => "Pocket Camera.",
        0xFD => "Bandai TAMA5",
        0xFE => "Hudson HuC - 3",
        0xFF => "Hudson HuC - 1",
        _ => "ERROR, Cartridge type not recognized",
    }
}

/// Names the size of a ROM size code.
pub fn rom_size_label(code: u8) -> (label: &'static str)
    ensures
        label@ == rom_size_text(code),
{
    match code {
        0x00 => "32KB (2 banks)",
        0x01 => "64KB (4 banks)",
        0x02 => "128KB (8 banks)",
        0x03 => "256KB (16 banks)",
        0x04 => "512KB (32 banks)",
        0x05 => "1MB (64 banks)",
        0x06 => "2MB (128 banks)",
        0x52 => "1.1MB (72 banks)",
        0x53 => "1.2MB (80 banks)",
        0x54 => "1.5MB (96 banks)",
        _ => "ERROR, ROM size not recognized",
    }
}

/// Names the size of a RAM size code.
pub fn ram_size_label(code: u8) -> (label: &'static str)
    ensures
        label@ == ram_size_text(code),
{
    match code {
        0x00 => "0KB (no RAM)",
        0x01 => "2KB (1 bank)",
        0x02 => "8KB (1 bank)",
        0x03 => "32KB (4 banks)",
        0x04 => "128KB (16 banks)",
        _ => "ERROR, RAM size not recognized",
    }
}

/// Names the market of a destination code.
pub fn destination_label(code: u8) -> (label: &'static str)
    ensures
        label@ == destination_text(code),
{
    match code {
        0x00 => "Japanese",
        0x01 => "Non-Japanese",
        _ => "ERROR, destination code  not recognized",
    }
}

/// Names the publisher of an old licensee code; `new_code` holds the bytes of the new
/// licensee code, which are read only where the old code refers to them.
pub fn licensee_label<'a>(code: u8, new_code: &'a [u8]) -> (label: Option<&'a str>)
    ensures
        label.deep_view() == licensee_text(code, new_code@),
{
    match code {
        0x33 => decode_text(new_code),
        0x79 => Some("Accolade"),
        0xA4 => Some("Konami"),
        _ => Some("ERROR, licensee code not recognized"),
    }
}

/// The table of cartridge types answers every byte: a code that it lists gets a label of
/// its own, and every other code gets the label that says it was not recognized.
pub proof fn cartridge_type_total(code: u8)
    ensures
        cartridge_type_known(code) <==> cartridge_type_text(code) != cartridge_type_unknown(),
{
    reveal_strlit("ERROR, Cartridge type not recognized");
    reveal_strlit("ROM ONLY.");
    reveal_strlit("ROM + MBC1.");
    reveal_strlit("ROM + MBC1 + RAM.");
    reveal_strlit("ROM + MBC1 + RAM + BATT.");
    reveal_strlit("ROM + MBC2.");
    reveal_strlit("ROM + MBC2  BATT.");
    reveal_strlit("ROM + RAM.");
    reveal_strlit("ROM + RAM + BATT.");
    reveal_strlit("ROM + MMM01.");
    reveal_strlit("ROM + MMM01 + SRAM.");
    reveal_strlit("ROM + + MMM01 + SRAM + BATT.");
    reveal_strlit("ROM + MBC3 + TIMER + BATT.");
    reveal_strlit("ROM + MBC3 + TIMER + RAM + BATT.");
    reveal_strlit("ROM + MBC3.");
    reveal_strlit("ROM + MBC3 + RAM.");
    reveal_strlit("ROM + MBC3 + RAM + BATT.");
    reveal_strlit("ROM + MBC5.");
    reveal_strlit("ROM + MBC5 + RAM.");
    reveal_strlit("ROM + MBC5 + RAM + BATT.");
    reveal_strlit("ROM + MBC5 + RUMBLE.");
    reveal_strlit("ROM + MBC5 + RUMBLE + SRAM.");
    reveal_strlit("ROM + MBC5 + RUMBLE + SRAM + BATT.");
    reveal_strlit("Pocket Camera.");
    reveal_strlit("Bandai TAMA5");
    reveal_strlit("Hudson HuC - 3");
    reveal_strlit("Hudson HuC - 1");
    assert(cartridge_type_unknown()[0] == 'E');
    if cartridge_type_known(code) {
        assert(cartridge_type_text(code)[0] != 'E');
    }
}

/// The table of ROM sizes answers every byte: a code that it lists gets a label of its own,
/// and every other code gets the label that says it was not recognized.
pub proof fn rom_size_total(code: u8)
    ensures
        rom_size_known(code) <==> rom_size_text(code) != rom_size_unknown(),
{
    reveal_strlit("ERROR, ROM size not recognized");
    reveal_strlit("32KB (2 banks)");
    reveal_strlit("64KB (4 banks)");
    reveal_strlit("128KB (8 banks)");
    reveal_strlit("256KB (16 banks)");
    reveal_strlit("512KB (32 banks)");
    reveal_strlit("1MB (64 banks)");
    reveal_strlit("2MB (128 banks)");
    reveal_strlit("1.1MB (72 banks)");
    reveal_strlit("1.2MB (80 banks)");
    reveal_strlit("1.5MB (96 banks)");
    assert(rom_size_unknown()[0] == 'E');
    if rom_size_known(code) {
        assert(rom_size_text(code)[0] != 'E');
    }
}

/// The table of RAM sizes answers every byte: a code that it lists gets a label of its own,
/// and every other code gets the label that says it was not recognized.
pub proof fn ram_size_total(code: u8)
    ensures
        ram_size_known(code) <==> ram_size_text(code) != ram_size_unknown(),
{
    reveal_strlit("ERROR, RAM size not recognized");
    reveal_strlit("0KB (no RAM)");
    reveal_strlit("2KB (1 bank)");
    reveal_strlit("8KB (1 bank)");
    reveal_strlit("32KB (4 banks)");
    reveal_strlit("128KB (16 banks)");
    assert(ram_size_unknown()[0] == 'E');
    if ram_size_known(code) {
        assert(ram_size_text(code)[0] != 'E');
    }
}

/// The table of destinations answers every byte: a code that it lists gets a label of its
/// own, and every other code gets the label that says it was not recognized.
pub proof fn destination_total(code: u8)
    ensures
        destination_known(code) <==> destination_text(code) != destination_unknown(),
{
    reveal_strlit("ERROR, destination code  not recognized");
    reveal_strlit("Japanese");
    reveal_strlit("Non-Japanese");
    assert(destination_unknown()[0] == 'E');
    if destination_known(code) {
        assert(destination_text(code)[0] != 'E');
    }
}

/// The table of licensees answers every byte. A code that it does not list gets the label
/// that says so, whatever the new licensee code holds. The two publishers that it lists get
/// a label of their own. The reference to the new licensee code gets a label exactly where
/// the new code is UTF-8 text, and then that text.
pub proof fn licensee_total(code: u8, new_code: Seq<u8>)
    ensures
        !licensee_known(code) ==> licensee_text(code, new_code) == Some(licensee_unknown()),
        licensee_known(code) && code != 0x33 ==> licensee_text(code, new_code) is Some
            && licensee_text(code, new_code) != Some(licensee_unknown()),
        code == 0x33 ==> (licensee_text(code, new_code) is Some <==> valid_utf8(new_code)),
        code == 0x33 && valid_utf8(new_code) ==> licensee_text(code, new_code) == Some(
            decode_utf8(new_code),
        ),
{
    reveal_strlit("ERROR, licensee code not recognized");
    reveal_strlit("Accolade");
    reveal_strlit("Konami");
    assert(licensee_unknown()[0] == 'E');
    assert("Accolade"@[0] == 'A');
    assert("Konami"@[0] == 'K');
}

} // verus!
