//! Lowercase hexadecimal encoding of the bytes of a string, used to name the
//! per-workspace port file.

use vstd::prelude::*;
use vstd::utf8::encode_utf8;
use vstd::utf8::encode_utf8_decode_utf8;

verus! {

/// The sixteen lowercase hexadecimal digits, in order of value.
pub open spec fn hex_digits() -> Seq<char> {
    seq!['0', '1', '2', '3', '4', '5', '6', '7', '8', '9', 'a', 'b', 'c', 'd', 'e', 'f']
}

/// The digit for a value below sixteen.
pub open spec fn hex_digit(n: int) -> char {
    hex_digits()[n]
}

/// A lowercase hexadecimal digit.
pub open spec fn is_lower_hex_digit(c: char) -> bool {
    ('0' <= c && c <= '9') || ('a' <= c && c <= 'f')
}

/// Two digits per byte, high nibble first, no separators.
pub open spec fn hex_of(b: Seq<u8>) -> Seq<char>
    decreases b.len(),
{
    if b.len() == 0 {
        Seq::empty()
    } else {
        hex_of(b.drop_last()) + seq![hex_digit((b.last() / 16) as int), hex_digit((b.last() % 16) as int)]
    }
}

/// The name under which a string is encoded: the hex of its UTF-8 bytes.
pub open spec fn hex_of_text(s: Seq<char>) -> Seq<char> {
    hex_of(encode_utf8(s))
}

/// The encoding has two characters for each byte.
pub proof fn lemma_hex_len(b: Seq<u8>)
    ensures
        hex_of(b).len() == 2 * b.len(),
    decreases b.len(),
{
    if b.len() > 0 {
        lemma_hex_len(b.drop_last());
    }
}

/// Every character of the encoding is a lowercase hexadecimal digit.
pub proof fn lemma_hex_lower(b: Seq<u8>)
    ensures
        forall|i: int| 0 <= i < hex_of(b).len() ==> is_lower_hex_digit(#[trigger] hex_of(b)[i]),
    decreases b.len(),
{
    if b.len() > 0 {
        lemma_hex_lower(b.drop_last());
        lemma_hex_len(b.drop_last());
        let hi = b.last() / 16;
        let lo = b.last() % 16;
        assert(is_lower_hex_digit(hex_digit(hi as int)));
        assert(is_lower_hex_digit(hex_digit(lo as int)));
    }
}

proof fn lemma_hex_digit_injective(x: int, y: int)
    requires
        0 <= x < 16,
        0 <= y < 16,
        hex_digit(x) == hex_digit(y),
    ensures
        x == y,
{
}

/// Distinct byte strings have distinct encodings.
pub proof fn lemma_hex_injective(a: Seq<u8>, b: Seq<u8>)
    requires
        hex_of(a) == hex_of(b),
    ensures
        a == b,
    decreases a.len(),
{
    lemma_hex_len(a);
    lemma_hex_len(b);
    if a.len() > 0 {
        let ha = hex_of(a.drop_last());
        let hb = hex_of(b.drop_last());
        lemma_hex_len(a.drop_last());
        lemma_hex_len(b.drop_last());
        let n = hex_of(a).len();
        assert(hex_of(a)[n - 2] == hex_digit((a.last() / 16) as int));
        assert(hex_of(b)[n - 2] == hex_digit((b.last() / 16) as int));
        assert(hex_of(a)[n - 1] == hex_digit((a.last() % 16) as int));
        assert(hex_of(b)[n - 1] == hex_digit((b.last() % 16) as int));
        lemma_hex_digit_injective((a.last() / 16) as int, (b.last() / 16) as int);
        lemma_hex_digit_injective((a.last() % 16) as int, (b.last() % 16) as int);
        assert(ha =~= hex_of(a).subrange(0, n - 2));
        assert(hb =~= hex_of(b).subrange(0, n - 2));
        lemma_hex_injective(a.drop_last(), b.drop_last());
        assert(a =~= a.drop_last().push(a.last()));
        assert(b =~= b.drop_last().push(b.last()));
    }
}

/// The encoding of a string has twice as many characters as the string has
/// UTF-8 bytes, uses lowercase hexadecimal digits only, and no two distinct
/// strings share an encoding.
pub proof fn lemma_hex_of_text(s: Seq<char>, t: Seq<char>)
    ensures
        hex_of_text(s).len() == 2 * encode_utf8(s).len(),
        forall|i: int|
            0 <= i < hex_of_text(s).len() ==> is_lower_hex_digit(#[trigger] hex_of_text(s)[i]),
        hex_of_text(s) == hex_of_text(t) ==> s == t,
{
    lemma_hex_len(encode_utf8(s));
    lemma_hex_lower(encode_utf8(s));
    if hex_of_text(s) == hex_of_text(t) {
        lemma_hex_injective(encode_utf8(s), encode_utf8(t));
        encode_utf8_decode_utf8(s);
        encode_utf8_decode_utf8(t);
    }
}

/// Encodes the UTF-8 bytes of `s` as lowercase hexadecimal, two digits per
/// byte.
pub fn string_to_hex(s: &str) -> (r: String)
    ensures
        r@ == hex_of_text(s@),
{
    let bytes = s.as_bytes();
    let digits = "0123456789abcdef";
    proof {
        reveal_strlit("0123456789abcdef");
        assert(digits@ =~= hex_digits());
    }
    let mut out = String::new();
    let mut i: usize = 0;
    while i < bytes.len()
        invariant
            i <= bytes@.len(),
            bytes@ == encode_utf8(s@),
            digits@ == hex_digits(),
            out@ == hex_of(bytes@.subrange(0, i as int)),
        decreases bytes@.len() - i,
    {
        let b = bytes[i];
        let hi = (b / 16) as usize;
        let lo = (b % 16) as usize;
        out.append(digits.substring_char(hi, hi + 1));
        out.append(digits.substring_char(lo, lo + 1));
        proof {
            let next = bytes@.subrange(0, i + 1);
            assert(next.drop_last() =~= bytes@.subrange(0, i as int));
            assert(next.last() == b);
            assert(digits@.subrange(hi as int, hi + 1) =~= seq![hex_digit(hi as int)]);
            assert(digits@.subrange(lo as int, lo + 1) =~= seq![hex_digit(lo as int)]);
            assert(out@ =~= hex_of(next));
        }
        i = i + 1;
    }
    assert(bytes@.subrange(0, bytes@.len() as int) =~= bytes@);
    out
}

} // verus!
