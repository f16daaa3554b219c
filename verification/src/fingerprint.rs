//! Content fingerprints: the CRC-32 of a file's bytes as eight hex digits.

use vstd::prelude::*;

verus! {

/// The CRC-32 (IEEE) checksum of a byte sequence, as `crc32fast` computes it.
pub uninterp spec fn crc32_of(data: Seq<u8>) -> u32;

/// Calls `crc32fast::hash`. The checksum depends on the bytes alone; which
/// value it is for given bytes is not stated here.
#[verifier::external_body]
fn checksum(data: &[u8]) -> (sum: u32)
    ensures
        sum == crc32_of(data@),
{
    crc32fast::hash(data)
}

/// The lower-case hex digit of a value below sixteen.
pub open spec fn hex_digit(n: int) -> char {
    if n == 0 {
        '0'
    } else if n == 1 {
        '1'
    } else if n == 2 {
        '2'
    } else if n == 3 {
        '3'
    } else if n == 4 {
        '4'
    } else if n == 5 {
        '5'
    } else if n == 6 {
        '6'
    } else if n == 7 {
        '7'
    } else if n == 8 {
        '8'
    } else if n == 9 {
        '9'
    } else if n == 10 {
        'a'
    } else if n == 11 {
        'b'
    } else if n == 12 {
        'c'
    } else if n == 13 {
        'd'
    } else if n == 14 {
        'e'
    } else {
        'f'
    }
}

/// The `i`-th four-bit group of `x`, counted from the most significant.
pub open spec fn nibble(x: u32, i: int) -> int {
    if i == 0 {
        ((x >> 28u32) & 0xf) as int
    } else if i == 1 {
        ((x >> 24u32) & 0xf) as int
    } else if i == 2 {
        ((x >> 20u32) & 0xf) as int
    } else if i == 3 {
        ((x >> 16u32) & 0xf) as int
    } else if i == 4 {
        ((x >> 12u32) & 0xf) as int
    } else if i == 5 {
        ((x >> 8u32) & 0xf) as int
    } else if i == 6 {
        ((x >> 4u32) & 0xf) as int
    } else {
        (x & 0xf) as int
    }
}

/// A checksum written as eight lower-case hex digits, most significant first.
pub open spec fn hex8(x: u32) -> Seq<char> {
    Seq::new(8, |i: int| hex_digit(nibble(x, i)))
}

/// The fingerprint of a byte sequence.
pub open spec fn fingerprint_of(data: Seq<u8>) -> Seq<char> {
    hex8(crc32_of(data))
}

/// Whether a string has the shape of a fingerprint: eight lower-case hex
/// digits.
pub open spec fn is_fingerprint(s: Seq<char>) -> bool {
    exists|x: u32| s == hex8(x)
}

/// One hex digit as a string.
fn digit_str(n: u32) -> (d: &'static str)
    requires
        n < 16,
    ensures
        d@ == seq![hex_digit(n as int)],
{
    proof {
        reveal_strlit("0");
        reveal_strlit("1");
        reveal_strlit("2");
        reveal_strlit("3");
        reveal_strlit("4");
        reveal_strlit("5");
        reveal_strlit("6");
        reveal_strlit("7");
        reveal_strlit("8");
        reveal_strlit("9");
        reveal_strlit("a");
        reveal_strlit("b");
        reveal_strlit("c");
        reveal_strlit("d");
        reveal_strlit("e");
        reveal_strlit("f");
    }
    let d: &'static str = match n {
        0 => "0",
        1 => "1",
        2 => "2",
        3 => "3",
        4 => "4",
        5 => "5",
        6 => "6",
        7 => "7",
        8 => "8",
        9 => "9",
        10 => "a",
        11 => "b",
        12 => "c",
        13 => "d",
        14 => "e",
        _ => "f",
    };
    d
}

/// Writes a checksum as eight lower-case hex digits, zero-padded.
pub fn to_hex(x: u32) -> (s: String)
    ensures
        s@ == hex8(x),
{
    assert(forall|v: u32| #![auto] (v & 0xf) < 16) by (bit_vector);
    let mut s = String::new();
    s.append(digit_str((x >> 28u32) & 0xf));
    s.append(digit_str((x >> 24u32) & 0xf));
    s.append(digit_str((x >> 20u32) & 0xf));
    s.append(digit_str((x >> 16u32) & 0xf));
    s.append(digit_str((x >> 12u32) & 0xf));
    s.append(digit_str((x >> 8u32) & 0xf));
    s.append(digit_str((x >> 4u32) & 0xf));
    s.append(digit_str(x & 0xf));
    s
}

/// The fingerprint of a file's bytes: its CRC-32 as eight hex digits. It is
/// the name of the book's directory and the only key by which two files are
/// held to be the same book.
pub fn get_hash(data: &Vec<u8>) -> (fingerprint: String)
    ensures
        fingerprint@ == fingerprint_of(data@),
{
    to_hex(checksum(data.as_slice()))
}

/// Distinct values below sixteen have distinct hex digits.
pub proof fn lemma_hex_digit_injective(a: int, b: int)
    requires
        0 <= a < 16,
        0 <= b < 16,
        hex_digit(a) == hex_digit(b),
    ensures
        a == b,
{
}

/// Two checksums with the same eight digits are the same checksum: the
/// fingerprint loses nothing of the checksum.
pub proof fn lemma_hex8_injective(x: u32, y: u32)
    requires
        hex8(x) == hex8(y),
    ensures
        x == y,
{
    assert(forall|v: u32| #![auto] (v & 0xf) < 16) by (bit_vector);
    assert forall|i: int| 0 <= i < 8 implies nibble(x, i) == nibble(y, i) by {
        assert(hex8(x)[i] == hex_digit(nibble(x, i)));
        assert(hex8(y)[i] == hex_digit(nibble(y, i)));
        lemma_hex_digit_injective(nibble(x, i), nibble(y, i));
    }
    assert(nibble(x, 0) == nibble(y, 0));
    assert(nibble(x, 1) == nibble(y, 1));
    assert(nibble(x, 2) == nibble(y, 2));
    assert(nibble(x, 3) == nibble(y, 3));
    assert(nibble(x, 4) == nibble(y, 4));
    assert(nibble(x, 5) == nibble(y, 5));
    assert(nibble(x, 6) == nibble(y, 6));
    assert(nibble(x, 7) == nibble(y, 7));
    assert(((x >> 28u32) & 0xf) == ((y >> 28u32) & 0xf) && ((x >> 24u32) & 0xf) == ((y >> 24u32)
        & 0xf) && ((x >> 20u32) & 0xf) == ((y >> 20u32) & 0xf) && ((x >> 16u32) & 0xf) == ((y
        >> 16u32) & 0xf) && ((x >> 12u32) & 0xf) == ((y >> 12u32) & 0xf) && ((x >> 8u32) & 0xf)
        == ((y >> 8u32) & 0xf) && ((x >> 4u32) & 0xf) == ((y >> 4u32) & 0xf) && (x & 0xf) == (y
        & 0xf) ==> x == y) by (bit_vector);
}

/// Two files have the same fingerprint exactly if they have the same
/// checksum: the store holds them to be one book if and only if their
/// CRC-32 agree.
pub proof fn lemma_same_fingerprint_same_checksum(a: Seq<u8>, b: Seq<u8>)
    ensures
        fingerprint_of(a) == fingerprint_of(b) <==> crc32_of(a) == crc32_of(b),
{
    if fingerprint_of(a) == fingerprint_of(b) {
        lemma_hex8_injective(crc32_of(a), crc32_of(b));
    }
}

/// Equal bytes have equal fingerprints, whenever and wherever they are
/// hashed, and every fingerprint has eight digits.
pub proof fn lemma_fingerprint_deterministic(a: Seq<u8>, b: Seq<u8>)
    requires
        a == b,
    ensures
        fingerprint_of(a) == fingerprint_of(b),
        fingerprint_of(a).len() == 8,
        is_fingerprint(fingerprint_of(a)),
{
}

} // verus!
