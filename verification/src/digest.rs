use vstd::prelude::*;

use crate::text::push_char;

verus! {

/// The MD5 digest of `data`, as the md5 crate computes it.
pub uninterp spec fn md5_digest(data: Seq<u8>) -> Seq<u8>;

/// `md5::compute`. Trusted: returns the crate's digest of `data`, named
/// `md5_digest`; the crate's `Digest` wraps a `[u8; 16]`, so it has 16 bytes.
/// Which bytes MD5 yields is not stated.
#[verifier::external_body]
fn md5_compute(data: &[u8]) -> (digest: Vec<u8>)
    ensures
        digest@ == md5_digest(data@),
        digest@.len() == 16,
{
    md5::compute(data).0.to_vec()
}

/// The lower-case hexadecimal digit of `v` (for `0 <= v < 16`).
pub open spec fn hex_digit(v: int) -> char {
    if v < 10 {
        ('0' as int + v) as char
    } else {
        ('a' as int + (v - 10)) as char
    }
}

/// Lower-case hexadecimal text of `bytes`: two digits per byte, the high
/// nibble first (what `{:02x}` writes for each byte, as md5's `LowerHex` does).
pub open spec fn lower_hex(bytes: Seq<u8>) -> Seq<char> {
    Seq::new(
        2 * bytes.len(),
        |i: int|
            if i % 2 == 0 {
                hex_digit(bytes[i / 2] as int / 16)
            } else {
                hex_digit(bytes[i / 2] as int % 16)
            },
    )
}

/// `c` is one of `0`-`9`, `a`-`f`.
pub open spec fn is_lower_hex_digit(c: char) -> bool {
    ('0' <= c && c <= '9') || ('a' <= c && c <= 'f')
}

/// Hex text holds only lower-case hex digits.
pub proof fn lemma_lower_hex_digits(bytes: Seq<u8>, i: int)
    requires
        0 <= i < 2 * bytes.len(),
    ensures
        is_lower_hex_digit(lower_hex(bytes)[i]),
{
}

/// The value of a lower-case hexadecimal digit.
pub open spec fn hex_value(c: char) -> int {
    if '0' <= c && c <= '9' {
        c as int - '0' as int
    } else {
        c as int - 'a' as int + 10
    }
}

/// Hex text has two digits per byte, and each pair reads back as its byte
/// (high digit times 16 plus low digit): the text determines the bytes.
pub proof fn lemma_lower_hex_decodes(bytes: Seq<u8>, i: int)
    requires
        0 <= i < bytes.len(),
    ensures
        lower_hex(bytes).len() == 2 * bytes.len(),
        is_lower_hex_digit(lower_hex(bytes)[2 * i]),
        is_lower_hex_digit(lower_hex(bytes)[2 * i + 1]),
        hex_value(lower_hex(bytes)[2 * i]) * 16 + hex_value(lower_hex(bytes)[2 * i + 1]) == bytes[i],
{
    assert((2 * i) / 2 == i && (2 * i) % 2 == 0);
    assert((2 * i + 1) / 2 == i && (2 * i + 1) % 2 == 1);
    let b: int = bytes[i] as int;
    assert(b == (b / 16) * 16 + b % 16);
}

/// Different bytes give different hex text.
pub proof fn lemma_lower_hex_injective(a: Seq<u8>, b: Seq<u8>)
    requires
        lower_hex(a) == lower_hex(b),
    ensures
        a == b,
{
    assert(a.len() == b.len()) by {
        assert(lower_hex(a).len() == 2 * a.len());
        assert(lower_hex(b).len() == 2 * b.len());
    }
    assert forall|i: int| 0 <= i < a.len() implies a[i] == b[i] by {
        lemma_lower_hex_decodes(a, i);
        lemma_lower_hex_decodes(b, i);
    }
    assert(a =~= b);
}

fn hex_char(v: u8) -> (c: char)
    requires
        v < 16,
    ensures
        c == hex_digit(v as int),
{
    if v < 10 {
        (48 + v) as char
    } else {
        (97 + (v - 10)) as char
    }
}

/// The lower-case hexadecimal text of `bytes`.
pub fn to_lower_hex(bytes: &[u8]) -> (hex: String)
    ensures
        hex@ == lower_hex(bytes@),
{
    let mut hex = String::new();
    let mut k: usize = 0;
    while k < bytes.len()
        invariant
            k <= bytes@.len(),
            hex@.len() == 2 * k,
            forall|i: int| 0 <= i < 2 * k ==> #[trigger] hex@[i] == lower_hex(bytes@)[i],
        decreases bytes@.len() - k,
    {
        let b: u8 = bytes[k];
        push_char(&mut hex, hex_char(b / 16));
        push_char(&mut hex, hex_char(b % 16));
        assert((2 * k) / 2 == k && (2 * k) % 2 == 0);
        assert((2 * k + 1) / 2 == k && (2 * k + 1) % 2 == 1);
        k = k + 1;
    }
    assert(hex@ =~= lower_hex(bytes@));
    hex
}

/// The MD5 digest of `data` as lower-case hex text (32 characters), as
/// `format!("{:x}", md5::compute(data))` writes it.
pub fn md5_hex(data: &[u8]) -> (hex: String)
    ensures
        hex@ == lower_hex(md5_digest(data@)),
        hex@.len() == 32,
{
    let digest = md5_compute(data);
    to_lower_hex(digest.as_slice())
}

} // verus!
