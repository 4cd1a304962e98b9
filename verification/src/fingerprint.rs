//! Content fingerprints: a deterministic 64-bit hash of a byte buffer, and
//! its rendering as a lowercase hexadecimal string.
//!
//! The fingerprint is the cache key of the whole build: an object file is
//! named after the fingerprint of the source it was compiled from, so
//! identical content always maps to the identical artifact name.

use vstd::prelude::*;

verus! {

/// The value of the 64-bit content hash on a byte sequence. The hash is a
/// pure function of the bytes alone: no path, timestamp or machine state
/// enters it.
pub uninterp spec fn xxh3_of(bytes: Seq<u8>) -> u64;

/// Relies on xxhash_rust::xxh3::xxh3_64: a deterministic 64-bit hash of the
/// byte slice, a function of the bytes alone.
#[verifier::external_body]
fn xxh3(bytes: &[u8]) -> (r: u64)
    ensures
        r == xxh3_of(bytes@),
{
    xxhash_rust::xxh3::xxh3_64(bytes)
}

/// Hash a byte buffer. Identical content always yields the identical
/// fingerprint; it never fails, on any input, the empty buffer included.
pub fn fingerprint(bytes: &[u8]) -> (r: u64)
    ensures
        r == xxh3_of(bytes@),
{
    xxh3(bytes)
}

/// Two equal byte sequences always carry the same fingerprint: the hash
/// depends on the content alone.
pub proof fn lemma_fingerprint_deterministic(b1: Seq<u8>, b2: Seq<u8>)
    requires
        b1 == b2,
    ensures
        xxh3_of(b1) == xxh3_of(b2),
{
}

/// The lowercase hexadecimal digit for a value below 16.
pub open spec fn hex_digit(d: u64) -> char
    recommends
        d < 16,
{
    if d == 0 {
        '0'
    } else if d == 1 {
        '1'
    } else if d == 2 {
        '2'
    } else if d == 3 {
        '3'
    } else if d == 4 {
        '4'
    } else if d == 5 {
        '5'
    } else if d == 6 {
        '6'
    } else if d == 7 {
        '7'
    } else if d == 8 {
        '8'
    } else if d == 9 {
        '9'
    } else if d == 10 {
        'a'
    } else if d == 11 {
        'b'
    } else if d == 12 {
        'c'
    } else if d == 13 {
        'd'
    } else if d == 14 {
        'e'
    } else {
        'f'
    }
}

/// The lowercase hexadecimal rendering of `n`, without leading zeroes; `0`
/// renders as a single `'0'`.
pub open spec fn hex_of(n: u64) -> Seq<char>
    decreases n,
{
    if n < 16 {
        seq![hex_digit(n)]
    } else {
        hex_of(n / 16) + seq![hex_digit(n % 16)]
    }
}

/// A hexadecimal rendering is never empty.
pub proof fn lemma_hex_of_len(n: u64)
    ensures
        hex_of(n).len() >= 1,
    decreases n,
{
    if n >= 16 {
        lemma_hex_of_len(n / 16);
    }
}

/// Distinct values render to distinct hexadecimal strings: the rendering
/// never introduces a collision of its own.
pub proof fn lemma_hex_of_injective(a: u64, b: u64)
    requires
        hex_of(a) == hex_of(b),
    ensures
        a == b,
    decreases a,
{
    lemma_hex_of_len(a / 16);
    lemma_hex_of_len(b / 16);
    if a < 16 && b < 16 {
        assert(hex_of(a)[0] == hex_digit(a));
        assert(hex_of(b)[0] == hex_digit(b));
    } else if a < 16 {
        assert(hex_of(a).len() == 1);
        assert(hex_of(b).len() == hex_of(b / 16).len() + 1);
    } else if b < 16 {
        assert(hex_of(b).len() == 1);
        assert(hex_of(a).len() == hex_of(a / 16).len() + 1);
    } else {
        let la = hex_of(a).len();
        assert(hex_of(a).last() == hex_digit(a % 16));
        assert(hex_of(b).last() == hex_digit(b % 16));
        assert(a % 16 == b % 16);
        assert(hex_of(a / 16) =~= hex_of(b / 16)) by {
            assert(hex_of(a / 16).len() == la - 1);
            assert(hex_of(b / 16).len() == la - 1);
            assert forall|i: int| 0 <= i < la - 1 implies #[trigger] hex_of(a / 16)[i] == hex_of(
                b / 16,
            )[i] by {
                assert(hex_of(a)[i] == hex_of(a / 16)[i]);
                assert(hex_of(b)[i] == hex_of(b / 16)[i]);
            }
        }
        lemma_hex_of_injective(a / 16, b / 16);
    }
}

/// The single-character string for a hexadecimal digit.
fn hex_digit_str(d: u64) -> (r: &'static str)
    requires
        d < 16,
    ensures
        r@ == seq![hex_digit(d)],
{
    proof {
        reveal_strlit("0");
        reveal_strlit("1");
        reveal_strlit("2");
        reveal_strlit("3");
        reveal_strlit("4");
        reveal_strlit("5");
        reveal_strlit("6");
        reveal_strlit("7");
        reveal_strlit("8");
        reveal_strlit("9");
        reveal_strlit("a");
        reveal_strlit("b");
        reveal_strlit("c");
        reveal_strlit("d");
        reveal_strlit("e");
        reveal_strlit("f");
    }
    if d == 0 {
        "0"
    } else if d == 1 {
        "1"
    } else if d == 2 {
        "2"
    } else if d == 3 {
        "3"
    } else if d == 4 {
        "4"
    } else if d == 5 {
        "5"
    } else if d == 6 {
        "6"
    } else if d == 7 {
        "7"
    } else if d == 8 {
        "8"
    } else if d == 9 {
        "9"
    } else if d == 10 {
        "a"
    } else if d == 11 {
        "b"
    } else if d == 12 {
        "c"
    } else if d == 13 {
        "d"
    } else if d == 14 {
        "e"
    } else {
        "f"
    }
}

/// Render `n` in lowercase hexadecimal, as the compiler's object files are
/// named.
pub fn hex_string(n: u64) -> (r: String)
    ensures
        r@ == hex_of(n),
    decreases n,
{
    if n < 16 {
        let mut s = String::new();
        s.append(hex_digit_str(n));
        assert(s@ =~= hex_of(n));
        s
    } else {
        let mut s = hex_string(n / 16);
        s.append(hex_digit_str(n % 16));
        assert(s@ =~= hex_of(n));
        s
    }
}

} // verus!
