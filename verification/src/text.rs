//! Rendering of bytes as text: decimal and hexadecimal numerals, and UTF-8 decoding.

use vstd::prelude::*;
use vstd::string::*;
use vstd::utf8::*;

verus! {

/// The character that stands for a single digit below sixteen, in lower case.
pub open spec fn digit_char(d: int) -> char {
    if d == 0 {
        '0'
    } else if d == 1 {
        '1'
    } else if d == 2 {
        '2'
    } else if d == 3 {
        '3'
    } else if d == 4 {
        '4'
    } else if d == 5 {
        '5'
    } else if d == 6 {
        '6'
    } else if d == 7 {
        '7'
    } else if d == 8 {
        '8'
    } else if d == 9 {
        '9'
    } else if d == 10 {
        'a'
    } else if d == 11 {
        'b'
    } else if d == 12 {
        'c'
    } else if d == 13 {
        'd'
    } else if d == 14 {
        'e'
    } else {
        'f'
    }
}

/// The decimal numeral of `n`, most significant digit first, without leading zeros.
pub open spec fn decimal(n: nat) -> Seq<char>
    decreases n,
{
    if n < 10 {
        seq![digit_char(n as int)]
    } else {
        decimal(n / 10).push(digit_char((n % 10) as int))
    }
}

/// The hexadecimal numeral of `n` in lower case, most significant digit first, without
/// leading zeros and without a prefix.
pub open spec fn hexadecimal(n: nat) -> Seq<char>
    decreases n,
{
    if n < 16 {
        seq![digit_char(n as int)]
    } else {
        hexadecimal(n / 16).push(digit_char((n % 16) as int))
    }
}

/// The numerals of `bytes` in hexadecimal, in order, each two separated by a comma and a
/// space.
pub open spec fn hexadecimal_items(bytes: Seq<u8>) -> Seq<char>
    decreases bytes.len(),
{
    if bytes.len() == 0 {
        Seq::empty()
    } else if bytes.len() == 1 {
        hexadecimal(bytes[0] as nat)
    } else {
        hexadecimal_items(bytes.drop_last()) + seq![',', ' '] + hexadecimal(bytes.last() as nat)
    }
}

/// A list of bytes in hexadecimal between square brackets, such as `[4e, 0, ff]`.
pub open spec fn hexadecimal_list(bytes: Seq<u8>) -> Seq<char> {
    seq!['['] + hexadecimal_items(bytes) + seq![']']
}

/// Decodes `bytes` as UTF-8 text through `std::str::from_utf8`, dropping the detail of the
/// error. The contract is taken on trust: the call succeeds exactly on well-formed UTF-8,
/// and the text it hands back is the one that the bytes encode.
#[verifier::external_body]
pub(crate) fn decode_text(bytes: &[u8]) -> (text: Option<&str>)
    ensures
        text is Some <==> valid_utf8(bytes@),
        text matches Some(s) ==> s@ == decode_utf8(bytes@),
{
    std::str::from_utf8(bytes).ok()
}

/// The one-character text of a digit below sixteen.
fn digit_str(d: u8) -> (s: &'static str)
    requires
        d < 16,
    ensures
        s@ == seq![digit_char(d as int)],
{
    proof {
        reveal_strlit("0");
        reveal_strlit("1");
        reveal_strlit("2");
        reveal_strlit("3");
        reveal_strlit("4");
        reveal_strlit("5");
        reveal_strlit("6");
        reveal_strlit("7");
        reveal_strlit("8");
        reveal_strlit("9");
        reveal_strlit("a");
        reveal_strlit("b");
        reveal_strlit("c");
        reveal_strlit("d");
        reveal_strlit("e");
        reveal_strlit("f");
    }
    match d {
        0 => "0",
        1 => "1",
        2 => "2",
        3 => "3",
        4 => "4",
        5 => "5",
        6 => "6",
        7 => "7",
        8 => "8",
        9 => "9",
        10 => "a",
        11 => "b",
        12 => "c",
        13 => "d",
        14 => "e",
        _ => "f",
    }
}

/// Renders `n` in decimal.
pub fn decimal_string(n: u8) -> (s: String)
    ensures
        s@ == decimal(n as nat),
{
    reveal_with_fuel(decimal, 3);
    let mut s = String::new();
    if n >= 100 {
        s.append(digit_str(n / 100));
    }
    if n >= 10 {
        s.append(digit_str((n / 10) % 10));
    }
    s.append(digit_str(n % 10));
    s
}

/// Renders `n` in lower-case hexadecimal.
pub fn hexadecimal_string(n: u8) -> (s: String)
    ensures
        s@ == hexadecimal(n as nat),
{
    reveal_with_fuel(hexadecimal, 2);
    let mut s = String::new();
    if n >= 16 {
        s.append(digit_str(n / 16));
    }
    s.append(digit_str(n % 16));
    s
}

/// Renders `bytes` as a bracketed list of lower-case hexadecimal numerals.
pub fn hexadecimal_list_string(bytes: &[u8]) -> (s: String)
    ensures
        s@ == hexadecimal_list(bytes@),
{
    proof {
        reveal_strlit("[");
        reveal_strlit("]");
    }
    let mut s = String::from_str("[");
    let mut i: usize = 0;
    while i < bytes.len()
        invariant
            i <= bytes.len(),
            s@ == seq!['['] + hexadecimal_items(bytes@.take(i as int)),
        decreases bytes.len() - i,
    {
        let ghost before = s@;
        if i > 0 {
            s.append(", ");
        }
        let item = hexadecimal_string(bytes[i]);
        s.append(item.as_str());
        proof {
            reveal_strlit(", ");
            let done = bytes@.take(i as int);
            let next = bytes@.take(i + 1);
            assert(next.drop_last() == done);
            assert(next.last() == bytes@[i as int]);
            if i > 0 {
                assert(s@ == before + seq![',', ' '] + item@);
                assert(s@ == seq!['['] + (hexadecimal_items(done) + seq![',', ' '] + item@));
            } else {
                assert(hexadecimal_items(done) == Seq::<char>::empty());
                assert(s@ == seq!['['] + item@);
            }
        }
        i += 1;
    }
    proof {
        assert(bytes@.take(i as int) == bytes@);
    }
    s.append("]");
    s
}

/// The characters that bytes below 128 stand for, one for each.
pub open spec fn ascii_text(bytes: Seq<u8>) -> Seq<char> {
    Seq::new(bytes.len(), |i: int| bytes[i] as char)
}

/// Bytes that are all below 128 are UTF-8 text, and decode to one character for each.
pub proof fn ascii_decodes(bytes: Seq<u8>)
    requires
        forall|i: int| 0 <= i < bytes.len() ==> bytes[i] < 128,
    ensures
        valid_utf8(bytes),
        decode_utf8(bytes) == ascii_text(bytes),
{
    let chars = ascii_text(bytes);
    assert(is_ascii_chars(chars));
    is_ascii_chars_encode_utf8(chars);
    assert(encode_utf8(chars) =~= bytes);
    encode_utf8_valid_utf8(chars);
    encode_utf8_decode_utf8(chars);
}

} // verus!
