//! What the header of a cartridge image says, as a function of the image's bytes.
//!
//! The header lies at fixed offsets within the first bank of the image. Each of its fields
//! is described in one line of text, and the report is the sequence of those lines.

use vstd::prelude::*;
use vstd::utf8::*;
use crate::labels::{
    cartridge_type_text, color_text, destination_text, licensee_text, ram_size_text,
    rom_size_text, super_text,
};
use crate::labels::COLOR_FLAG;
use crate::logo::{
    matching_count, matching_count_full, matching_prefix_none, reference_signature, LOGO_END,
    LOGO_START,
};
use crate::text::{ascii_decodes, ascii_text, decimal, hexadecimal, hexadecimal_list};

verus! {

/// Number of bytes of a cartridge image that are held for inspection.
pub const CAPACITY: usize = 65536;

/// First offset of the title.
pub const TITLE_START: usize = 0x0134;

/// Offset just past the part of the title that is read.
pub const TITLE_END: usize = 0x0143;

/// Offset of the colour flag.
pub const COLOR_AT: usize = 0x0143;

/// First offset of the new licensee code.
pub const NEW_LICENSEE_START: usize = 0x0144;

/// Offset just past the new licensee code.
pub const NEW_LICENSEE_END: usize = 0x0146;

/// Offset of the Super Game Boy flag.
pub const SUPER_AT: usize = 0x0146;

/// Offset of the cartridge type code.
pub const CARTRIDGE_TYPE_AT: usize = 0x0147;

/// Offset of the ROM size code.
pub const ROM_SIZE_AT: usize = 0x0148;

/// Offset of the RAM size code.
pub const RAM_SIZE_AT: usize = 0x0149;

/// Offset of the destination code.
pub const DESTINATION_AT: usize = 0x014A;

/// Offset of the old licensee code.
pub const LICENSEE_AT: usize = 0x014B;

/// Offset of the complement check.
pub const COMPLEMENT_AT: usize = 0x014D;

/// First offset of the checksum.
pub const CHECKSUM_START: usize = 0x014E;

/// Offset just past the checksum, and past the header.
pub const CHECKSUM_END: usize = 0x0150;

/// A field of the header that holds text, and whose bytes are not UTF-8.
#[derive(Debug, Clone, Copy, PartialEq, Eq)]
pub enum HeaderError {
    /// The title is not UTF-8 text.
    InvalidTitle,
    /// The old licensee code refers to the new one, which is not UTF-8 text.
    InvalidLicenseeCode,
}

/// An image of which nothing was loaded yet: every byte is zero.
pub open spec fn blank_image() -> Seq<u8> {
    Seq::new(CAPACITY as nat, |i: int| 0u8)
}

/// The image after `data` was loaded over `image`: `data` from offset 0 on, as far as it
/// fits, and behind it what `image` held there before.
pub open spec fn loaded(image: Seq<u8>, data: Seq<u8>) -> Seq<u8> {
    Seq::new(
        image.len(),
        |i: int|
            if i < data.len() {
                data[i]
            } else {
                image[i]
            },
    )
}

/// The bytes of the image that are compared with the boot logo.
pub open spec fn logo_bytes(image: Seq<u8>) -> Seq<u8> {
    image.subrange(LOGO_START as int, LOGO_END as int)
}

/// How many bytes of the boot logo in the image match the reference.
pub open spec fn logo_matches(image: Seq<u8>) -> nat {
    matching_count(reference_signature(), logo_bytes(image))
}

/// The bytes of the title that are read.
pub open spec fn title_bytes(image: Seq<u8>) -> Seq<u8> {
    image.subrange(TITLE_START as int, TITLE_END as int)
}

/// The bytes of the new licensee code.
pub open spec fn new_licensee_bytes(image: Seq<u8>) -> Seq<u8> {
    image.subrange(NEW_LICENSEE_START as int, NEW_LICENSEE_END as int)
}

/// The bytes of the checksum.
pub open spec fn checksum_bytes(image: Seq<u8>) -> Seq<u8> {
    image.subrange(CHECKSUM_START as int, CHECKSUM_END as int)
}

/// The line on the boot logo.
pub open spec fn logo_line(image: Seq<u8>) -> Seq<char> {
    "Succesfully passed "@ + decimal(logo_matches(image))
        + " out of 48 of Nintendo graphics code bytes."@
}

/// The line on the title; none where the title is not UTF-8 text.
pub open spec fn title_line(image: Seq<u8>) -> Option<Seq<char>> {
    if valid_utf8(title_bytes(image)) {
        Some("Name of cartridge: "@ + decode_utf8(title_bytes(image)))
    } else {
        None
    }
}

/// The line on the console that the cartridge was made for.
pub open spec fn color_line(image: Seq<u8>) -> Seq<char> {
    "This cartridge is "@ + color_text(image[COLOR_AT as int]) + "."@
}

/// The line on the Super Game Boy.
pub open spec fn super_line(image: Seq<u8>) -> Seq<char> {
    "This cartridge "@ + super_text(image[SUPER_AT as int]) + " Super Gameboy."@
}

/// The line on the cartridge type.
pub open spec fn cartridge_type_line(image: Seq<u8>) -> Seq<char> {
    "The cartridge type is "@ + cartridge_type_text(image[CARTRIDGE_TYPE_AT as int])
}

/// The line on the ROM size.
pub open spec fn rom_size_line(image: Seq<u8>) -> Seq<char> {
    "The ROM size is "@ + rom_size_text(image[ROM_SIZE_AT as int])
}

/// The line on the RAM size.
pub open spec fn ram_size_line(image: Seq<u8>) -> Seq<char> {
    "The RAM size is "@ + ram_size_text(image[RAM_SIZE_AT as int])
}

/// The line on the destination.
pub open spec fn destination_line(image: Seq<u8>) -> Seq<char> {
    "The destination code is "@ + destination_text(image[DESTINATION_AT as int])
}

/// The line on the licensee; none where the old code refers to a new code that is not
/// UTF-8 text.
pub open spec fn licensee_line(image: Seq<u8>) -> Option<Seq<char>> {
    match licensee_text(image[LICENSEE_AT as int], new_licensee_bytes(image)) {
        Some(name) => Some("The licensee code is "@ + name),
        None => None,
    }
}

/// The line on the complement check.
pub open spec fn complement_line(image: Seq<u8>) -> Seq<char> {
    "The complement check is "@ + hexadecimal(image[COMPLEMENT_AT as int] as nat)
}

/// The line on the checksum.
pub open spec fn checksum_line(image: Seq<u8>) -> Seq<char> {
    "The checksum is "@ + hexadecimal_list(checksum_bytes(image))
}

/// The lines of the report that come before the line on the title.
pub open spec fn lines_before_title(image: Seq<u8>) -> Seq<Seq<char>> {
    seq![logo_line(image)]
}

/// The lines of the report that come before the line on the licensee.
pub open spec fn lines_before_licensee(image: Seq<u8>) -> Seq<Seq<char>>
    recommends
        title_line(image) is Some,
{
    seq![
        logo_line(image),
        title_line(image)->0,
        color_line(image),
        super_line(image),
        cartridge_type_line(image),
        rom_size_line(image),
        ram_size_line(image),
        destination_line(image),
    ]
}

/// All the lines of the report.
pub open spec fn all_lines(image: Seq<u8>) -> Seq<Seq<char>>
    recommends
        title_line(image) is Some,
        licensee_line(image) is Some,
{
    lines_before_licensee(image) + seq![
        licensee_line(image)->0,
        complement_line(image),
        checksum_line(image),
    ]
}

/// The report on an image: all its lines, or, where a field that holds text is not UTF-8,
/// the first such field and the lines that come before it.
pub open spec fn report(image: Seq<u8>) -> Result<Seq<Seq<char>>, (HeaderError, Seq<Seq<char>>)> {
    if title_line(image) is None {
        Err((HeaderError::InvalidTitle, lines_before_title(image)))
    } else if licensee_line(image) is None {
        Err((HeaderError::InvalidLicenseeCode, lines_before_licensee(image)))
    } else {
        Ok(all_lines(image))
    }
}

/// The check of the boot logo counts at most 48 bytes, and all 48 exactly where the image
/// holds the reference at the place of the logo. The line then says 48 out of 48.
pub proof fn logo_check_passes(image: Seq<u8>)
    requires
        image.len() >= LOGO_END,
    ensures
        logo_matches(image) <= 48,
        logo_matches(image) == 48 <==> logo_bytes(image) == reference_signature(),
        logo_bytes(image) == reference_signature() ==> logo_line(image)
            == "Succesfully passed 48 out of 48 of Nintendo graphics code bytes."@,
{
    matching_count_full(reference_signature(), logo_bytes(image));
    if logo_bytes(image) == reference_signature() {
        reveal_with_fuel(decimal, 2);
        reveal_strlit("Succesfully passed ");
        reveal_strlit(" out of 48 of Nintendo graphics code bytes.");
        reveal_strlit("Succesfully passed 48 out of 48 of Nintendo graphics code bytes.");
        assert(logo_line(image)
            =~= "Succesfully passed 48 out of 48 of Nintendo graphics code bytes."@);
    }
}

/// The check of the boot logo counts nothing exactly where every byte at the place of the
/// logo differs from the byte of the reference that it is held against.
pub proof fn logo_check_misses(image: Seq<u8>)
    requires
        image.len() >= LOGO_END,
    ensures
        logo_matches(image) == 0 <==> forall|i: int|
            0 <= i < 48 ==> image[LOGO_START + i] != reference_signature()[i],
{
    matching_prefix_none(reference_signature(), logo_bytes(image), 48);
    assert forall|i: int| 0 <= i < 48 implies logo_bytes(image)[i] == image[LOGO_START + i] by {}
}

/// The colour flag decides between two lines, and every value of it but one gives the
/// line of the plain console.
pub proof fn color_flag_decides(image: Seq<u8>)
    requires
        image.len() > COLOR_AT,
    ensures
        image[COLOR_AT as int] == COLOR_FLAG ==> color_line(image)
            == "This cartridge is Game Boy Color."@,
        image[COLOR_AT as int] != COLOR_FLAG ==> color_line(image)
            == "This cartridge is Game Boy."@,
{
    reveal_strlit("This cartridge is ");
    reveal_strlit("Game Boy Color");
    reveal_strlit("Game Boy");
    reveal_strlit(".");
    reveal_strlit("This cartridge is Game Boy Color.");
    reveal_strlit("This cartridge is Game Boy.");
    if image[COLOR_AT as int] == COLOR_FLAG {
        assert(color_line(image) =~= "This cartridge is Game Boy Color."@);
    } else {
        assert(color_line(image) =~= "This cartridge is Game Boy."@);
    }
}

/// Data that does not fill the blank image leaves zeros behind it.
pub proof fn short_load_zero_fills(data: Seq<u8>)
    requires
        data.len() < CAPACITY,
    ensures
        loaded(blank_image(), data) == data + Seq::new(
            (CAPACITY - data.len()) as nat,
            |i: int| 0u8,
        ),
{
}

/// Data that fills the image, or more than fills it, replaces all of it by its first bytes.
pub proof fn long_load_replaces(image: Seq<u8>, data: Seq<u8>)
    requires
        data.len() >= image.len(),
    ensures
        loaded(image, data) == data.take(image.len() as int),
{
}

/// Loading the same data a second time changes nothing, so that the report on the image
/// is the same after the second load as after the first.
pub proof fn reload_is_idempotent(image: Seq<u8>, data: Seq<u8>)
    ensures
        loaded(loaded(image, data), data) == loaded(image, data),
        report(loaded(loaded(image, data), data)) == report(loaded(image, data)),
{
    assert(loaded(loaded(image, data), data) =~= loaded(image, data));
}

/// The report is whole exactly where both fields that hold text are UTF-8, and then has
/// eleven lines. Where it breaks off, it does so at the first such field that is not,
/// after one line or after eight.
pub proof fn report_shape(image: Seq<u8>)
    ensures
        report(image) is Ok <==> valid_utf8(title_bytes(image)) && (image[LICENSEE_AT as int]
            == 0x33 ==> valid_utf8(new_licensee_bytes(image))),
        report(image) matches Ok(lines) ==> lines.len() == 11,
        report(image) matches Err(failure) ==> (failure.0 == HeaderError::InvalidTitle
            <==> !valid_utf8(title_bytes(image))),
        report(image) matches Err(failure) ==> failure.1.len() == (if failure.0
            == HeaderError::InvalidTitle {
            1nat
        } else {
            8nat
        }),
{
}

/// A header whose title and new licensee code hold only bytes below 128 gives a whole
/// report, with the title written one character to the byte.
pub proof fn ascii_header_reports(image: Seq<u8>)
    requires
        image.len() >= CHECKSUM_END,
        forall|i: int| TITLE_START <= i < TITLE_END ==> image[i] < 128,
        forall|i: int| NEW_LICENSEE_START <= i < NEW_LICENSEE_END ==> image[i] < 128,
    ensures
        report(image) == Ok::<Seq<Seq<char>>, (HeaderError, Seq<Seq<char>>)>(all_lines(image)),
        title_line(image) == Some("Name of cartridge: "@ + ascii_text(title_bytes(image))),
{
    ascii_decodes(title_bytes(image));
    ascii_decodes(new_licensee_bytes(image));
}

} // verus!
