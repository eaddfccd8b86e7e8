//! The reader: a buffer that holds the first bank of a cartridge image, and the functions
//! that describe the header found in it.

use vstd::prelude::*;
use vstd::string::*;
use crate::header::{
    all_lines, blank_image, cartridge_type_line, checksum_line, color_line, complement_line,
    destination_line, licensee_line, lines_before_licensee, lines_before_title, loaded,
    logo_line, logo_matches, ram_size_line, report, rom_size_line, super_line, title_line,
    HeaderError, CAPACITY, CARTRIDGE_TYPE_AT, CHECKSUM_END, CHECKSUM_START, COLOR_AT,
    COMPLEMENT_AT, DESTINATION_AT, LICENSEE_AT, NEW_LICENSEE_END, NEW_LICENSEE_START,
    RAM_SIZE_AT, ROM_SIZE_AT, SUPER_AT, TITLE_END, TITLE_START,
};
use crate::labels::{
    cartridge_type_label, color_label, destination_label, licensee_label, ram_size_label,
    rom_size_label, super_label,
};
use crate::logo::{
    matching_prefix, reference_signature, reference_signature_bytes, LOGO_END, LOGO_START,
};
use crate::text::{decimal_string, decode_text, hexadecimal_list_string, hexadecimal_string};

verus! {

/// Holds the first 65536 bytes of a cartridge image, and the boot logo to hold them
/// against.
pub struct CartridgeReader {
    nintendo_graphics_code: [u8; 48],
    cartridge: [u8; 65536],
}

/// A report that broke off at a field whose bytes are not UTF-8 text.
#[derive(Debug, PartialEq, Eq)]
pub struct ReportError {
    /// The field at which the report broke off.
    pub cause: HeaderError,
    /// The lines that were written before it.
    pub printed: Vec<String>,
}

impl View for ReportError {
    type V = (HeaderError, Seq<Seq<char>>);

    open spec fn view(&self) -> (HeaderError, Seq<Seq<char>>) {
        (self.cause, self.printed.deep_view())
    }
}

/// What the outcome of a report says, as text: its lines, or the field at which it broke
/// off and the lines before that field.
pub open spec fn outcome_view(outcome: Result<Vec<String>, ReportError>) -> Result<
    Seq<Seq<char>>,
    (HeaderError, Seq<Seq<char>>),
> {
    match outcome {
        Ok(lines) => Ok(lines.deep_view()),
        Err(error) => Err(error@),
    }
}

/// Whatever two reports on one image hold, they say the same: the lines, and where one
/// broke off.
pub proof fn describe_is_repeatable(
    image: Seq<u8>,
    first: Result<Vec<String>, ReportError>,
    second: Result<Vec<String>, ReportError>,
)
    requires
        outcome_view(first) == report(image),
        outcome_view(second) == report(image),
    ensures
        outcome_view(first) == outcome_view(second),
        first is Ok <==> second is Ok,
{
}

impl View for CartridgeReader {
    type V = Seq<u8>;

    /// The image that the reader holds.
    closed spec fn view(&self) -> Seq<u8> {
        self.cartridge@
    }
}

impl CartridgeReader {
    #[verifier::type_invariant]
    spec fn holds_reference(&self) -> bool {
        self.nintendo_graphics_code@ == reference_signature()
    }

    /// The image that a reader holds has always the same length.
    pub proof fn image_len(&self)
        ensures
            self@.len() == CAPACITY,
    {
    }

    /// A reader that holds the blank image.
    pub fn new() -> (reader: CartridgeReader)
        ensures
            reader@ == blank_image(),
    {
        let nintendo_graphics_code = reference_signature_bytes();
        let cartridge = [0; 65536];
        CartridgeReader { nintendo_graphics_code, cartridge }
    }

    /// The bytes of the image that the reader holds.
    pub fn image(&self) -> (bytes: &[u8])
        ensures
            bytes@ == self@,
    {
        self.cartridge.as_slice()
    }

    /// Copies `data` into the buffer from offset 0 on, as far as it fits. What lies behind
    /// the copied bytes stays as it was.
    pub fn load_memory(&mut self, data: &[u8])
        ensures
            final(self)@ == loaded(old(self)@, data@),
    {
        proof {
            use_type_invariant(&*self);
        }
        let mut n: usize = 0;
        while n < data.len() && n < CAPACITY
            invariant
                n <= data@.len(),
                n <= CAPACITY,
                self.nintendo_graphics_code@ == reference_signature(),
                forall|i: int| 0 <= i < n ==> self.cartridge@[i] == data@[i],
                forall|i: int|
                    n <= i < CAPACITY ==> self.cartridge@[i] == old(self).cartridge@[i],
            decreases CAPACITY - n,
        {
            self.cartridge[n] = data[n];
            n += 1;
        }
    }

    /// Counts the bytes of the boot logo in the image that match the reference.
    pub fn count_logo_matches(&self) -> (successes: u8)
        ensures
            successes == logo_matches(self@),
            successes <= 48,
    {
        proof {
            use_type_invariant(self);
        }
        let mut successes: u8 = 0;
        let mut n: usize = LOGO_START;
        while n < LOGO_END
            invariant
                LOGO_START <= n <= LOGO_END,
                self.nintendo_graphics_code@ == reference_signature(),
                successes == matching_prefix(
                    reference_signature(),
                    self.cartridge@.subrange(LOGO_START as int, LOGO_END as int),
                    (n - LOGO_START) as nat,
                ),
                successes <= n - LOGO_START,
            decreases LOGO_END - n,
        {
            if self.nintendo_graphics_code[n - LOGO_START] == self.cartridge[n] {
                successes += 1;
            }
            n += 1;
        }
        successes
    }

    /// Writes the line on the boot logo.
    pub fn check_nintendo_code(&self) -> (line: String)
        ensures
            line@ == logo_line(self@),
    {
        let successes = self.count_logo_matches();
        let mut line = String::from_str("Succesfully passed ");
        line.append(decimal_string(successes).as_str());
        line.append(" out of 48 of Nintendo graphics code bytes.");
        line
    }

    /// Writes the line on the title, or says that the title is not UTF-8 text.
    pub fn get_cartridge_name(&self) -> (line: Result<String, HeaderError>)
        ensures
            line is Ok <==> title_line(self@) is Some,
            line matches Ok(text) ==> Some(text@) == title_line(self@),
            line matches Err(cause) ==> cause == HeaderError::InvalidTitle,
    {
        match decode_text(&self.cartridge[TITLE_START..TITLE_END]) {
            Some(title) => {
                let mut line = String::from_str("Name of cartridge: ");
                line.append(title);
                Ok(line)
            },
            None => Err(HeaderError::InvalidTitle),
        }
    }

    /// Writes the line on the console that the cartridge was made for.
    pub fn determine_gbc(&self) -> (line: String)
        ensures
            line@ == color_line(self@),
    {
        let mut line = String::from_str("This cartridge is ");
        line.append(color_label(self.cartridge[COLOR_AT]));
        line.append(".");
        line
    }

    /// Writes the line on the Super Game Boy.
    pub fn determine_sgb(&self) -> (line: String)
        ensures
            line@ == super_line(self@),
    {
        let mut line = String::from_str("This cartridge ");
        line.append(super_label(self.cartridge[SUPER_AT]));
        line.append(" Super Gameboy.");
        line
    }

    /// Writes the line on the cartridge type.
    pub fn get_cartridge_type(&self) -> (line: String)
        ensures
            line@ == cartridge_type_line(self@),
    {
        let mut phrase = String::from_str("The cartridge type is ");
        phrase.append(cartridge_type_label(self.cartridge[CARTRIDGE_TYPE_AT]));
        phrase
    }

    /// Writes the line on the ROM size.
    pub fn get_rom_size(&self) -> (line: String)
        ensures
            line@ == rom_size_line(self@),
    {
        let mut phrase = String::from_str("The ROM size is ");
        phrase.append(rom_size_label(self.cartridge[ROM_SIZE_AT]));
        phrase
    }

    /// Writes the line on the RAM size.
    pub fn get_ram_size(&self) -> (line: String)
        ensures
            line@ == ram_size_line(self@),
    {
        let mut phrase = String::from_str("The RAM size is ");
        phrase.append(ram_size_label(self.cartridge[RAM_SIZE_AT]));
        phrase
    }

    /// Writes the line on the destination.
    pub fn get_destination_code(&self) -> (line: String)
        ensures
            line@ == destination_line(self@),
    {
        let mut phrase = String::from_str("The destination code is ");
        phrase.append(destination_label(self.cartridge[DESTINATION_AT]));
        phrase
    }

    /// Writes the line on the licensee, or says that the new licensee code, where the old
    /// one refers to it, is not UTF-8 text.
    pub fn get_licensee_code(&self) -> (line: Result<String, HeaderError>)
        ensures
            line is Ok <==> licensee_line(self@) is Some,
            line matches Ok(text) ==> Some(text@) == licensee_line(self@),
            line matches Err(cause) ==> cause == HeaderError::InvalidLicenseeCode,
    {
        match licensee_label(
            self.cartridge[LICENSEE_AT],
            &self.cartridge[NEW_LICENSEE_START..NEW_LICENSEE_END],
        ) {
            Some(name) => {
                let mut phrase = String::from_str("The licensee code is ");
                phrase.append(name);
                Ok(phrase)
            },
            None => Err(HeaderError::InvalidLicenseeCode),
        }
    }

    /// Writes the line on the complement check.
    pub fn get_complement_check(&self) -> (line: String)
        ensures
            line@ == complement_line(self@),
    {
        let mut line = String::from_str("The complement check is ");
        line.append(hexadecimal_string(self.cartridge[COMPLEMENT_AT]).as_str());
        line
    }

    /// Writes the line on the checksum.
    pub fn get_checksum(&self) -> (line: String)
        ensures
            line@ == checksum_line(self@),
    {
        let mut line = String::from_str("The checksum is ");
        let checksum = hexadecimal_list_string(&self.cartridge[CHECKSUM_START..CHECKSUM_END]);
        line.append(checksum.as_str());
        line
    }

    /// Describes the header of the image that the reader holds, field by field. The
    /// report breaks off at the first field whose bytes should be UTF-8 text and are not.
    pub fn describe(&self) -> (outcome: Result<Vec<String>, ReportError>)
        ensures
            outcome_view(outcome) == report(self@),
    {
        let mut lines: Vec<String> = Vec::new();
        lines.push(self.check_nintendo_code());
        assert(lines.deep_view() == lines_before_title(self@));
        match self.get_cartridge_name() {
            Ok(line) => lines.push(line),
            Err(cause) => {
                return Err(ReportError { cause, printed: lines });
            },
        }
        lines.push(self.determine_gbc());
        lines.push(self.determine_sgb());
        lines.push(self.get_cartridge_type());
        lines.push(self.get_rom_size());
        lines.push(self.get_ram_size());
        lines.push(self.get_destination_code());
        assert(lines.deep_view() == lines_before_licensee(self@));
        match self.get_licensee_code() {
            Ok(line) => lines.push(line),
            Err(cause) => {
                return Err(ReportError { cause, printed: lines });
            },
        }
        lines.push(self.get_complement_check());
        lines.push(self.get_checksum());
        assert(lines.deep_view() == all_lines(self@));
        Ok(lines)
    }

    /// Loads `data` into the buffer and describes the header that the buffer then holds.
    pub fn get_info(&mut self, data: &[u8]) -> (outcome: Result<Vec<String>, ReportError>)
        ensures
            final(self)@ == loaded(old(self)@, data@),
            outcome_view(outcome) == report(final(self)@),
    {
        self.load_memory(data);
        self.describe()
    }
}

} // verus!
