//! The boot logo that the console compares against the cartridge before it starts a game.

use vstd::prelude::*;

verus! {

/// First offset of the boot logo within a cartridge image.
pub const LOGO_START: usize = 0x0104;

/// Offset just past the boot logo within a cartridge image.
pub const LOGO_END: usize = 0x0134;

/// The bytes of the boot logo, as every licensed cartridge carries them.
pub open spec fn reference_signature() -> Seq<u8> {
    seq![
        0xCE, 0xED, 0x66, 0x66, 0xCC, 0x0D, 0x00, 0x0B, 0x03, 0x73, 0x00, 0x83,
        0x00, 0x0C, 0x00, 0x0D, 0x00, 0x08, 0x11, 0x1F, 0x88, 0x89, 0x00, 0x0E,
        0xDC, 0xCC, 0x6E, 0xE6, 0xDD, 0xDD, 0xD9, 0x99, 0xBB, 0xBB, 0x67, 0x63,
        0x6E, 0x0E, 0xEC, 0xCC, 0xDD, 0xDC, 0x99, 0x9F, 0xBB, 0xB9, 0x33, 0x3E,
    ]
}

/// How many of the first `n` positions hold the same byte in `expected` and in `actual`.
pub open spec fn matching_prefix(expected: Seq<u8>, actual: Seq<u8>, n: nat) -> nat
    recommends
        n <= expected.len(),
        n <= actual.len(),
    decreases n,
{
    if n == 0 {
        0
    } else {
        let earlier = matching_prefix(expected, actual, (n - 1) as nat);
        if expected[n - 1] == actual[n - 1] {
            earlier + 1
        } else {
            earlier
        }
    }
}

/// How many positions of `expected` hold the same byte in `actual`.
pub open spec fn matching_count(expected: Seq<u8>, actual: Seq<u8>) -> nat
    recommends
        expected.len() == actual.len(),
{
    matching_prefix(expected, actual, expected.len())
}

/// The boot logo as an array.
pub fn reference_signature_bytes() -> (code: [u8; 48])
    ensures
        code@ == reference_signature(),
{
    [
        0xCE, 0xED, 0x66, 0x66, 0xCC, 0x0D, 0x00, 0x0B, 0x03, 0x73, 0x00, 0x83,
        0x00, 0x0C, 0x00, 0x0D, 0x00, 0x08, 0x11, 0x1F, 0x88, 0x89, 0x00, 0x0E,
        0xDC, 0xCC, 0x6E, 0xE6, 0xDD, 0xDD, 0xD9, 0x99, 0xBB, 0xBB, 0x67, 0x63,
        0x6E, 0x0E, 0xEC, 0xCC, 0xDD, 0xDC, 0x99, 0x9F, 0xBB, 0xB9, 0x33, 0x3E,
    ]
}

/// No more positions can match than were looked at.
pub proof fn matching_prefix_bounded(expected: Seq<u8>, actual: Seq<u8>, n: nat)
    ensures
        matching_prefix(expected, actual, n) <= n,
    decreases n,
{
    if n > 0 {
        matching_prefix_bounded(expected, actual, (n - 1) as nat);
    }
}

/// Every position that was looked at matches exactly where the count is the number of
/// positions.
pub proof fn matching_prefix_full(expected: Seq<u8>, actual: Seq<u8>, n: nat)
    requires
        n <= expected.len(),
        n <= actual.len(),
    ensures
        matching_prefix(expected, actual, n) == n <==> forall|i: int|
            0 <= i < n ==> expected[i] == actual[i],
    decreases n,
{
    if n > 0 {
        matching_prefix_full(expected, actual, (n - 1) as nat);
        matching_prefix_bounded(expected, actual, (n - 1) as nat);
    }
}

/// No position that was looked at matches exactly where the count is zero.
pub proof fn matching_prefix_none(expected: Seq<u8>, actual: Seq<u8>, n: nat)
    requires
        n <= expected.len(),
        n <= actual.len(),
    ensures
        matching_prefix(expected, actual, n) == 0 <==> forall|i: int|
            0 <= i < n ==> expected[i] != actual[i],
    decreases n,
{
    if n > 0 {
        matching_prefix_none(expected, actual, (n - 1) as nat);
    }
}

/// Two sequences of one length are equal exactly where every position is counted as a
/// match.
pub proof fn matching_count_full(expected: Seq<u8>, actual: Seq<u8>)
    requires
        expected.len() == actual.len(),
    ensures
        matching_count(expected, actual) <= expected.len(),
        matching_count(expected, actual) == expected.len() <==> expected == actual,
{
    matching_prefix_bounded(expected, actual, expected.len());
    matching_prefix_full(expected, actual, expected.len());
    if matching_count(expected, actual) == expected.len() {
        assert(expected =~= actual);
    }
}

} // verus!
