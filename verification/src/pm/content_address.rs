//! Content addresses: the BLAKE3 digest of a file's bytes in lowercase hex.
use crate::text::push_char;
use vstd::prelude::*;
use crate::pm::layout::{bucketable, lemma_ascii_bucketable};
use vstd::utf8::{encode_utf8, is_ascii_chars};

verus! {

/// The BLAKE3 digest (32 bytes) of an input.
pub uninterp spec fn spec_blake3(input: Seq<u8>) -> Seq<u8>;

/// `blake3::hash`: the 32-byte digest of the input, named by `spec_blake3`.
#[verifier::external_body]
fn blake3_digest(input: &[u8]) -> (r: Vec<u8>)
    ensures
        r@ == spec_blake3(input@),
        r@.len() == 32,
{
    blake3::hash(input).as_bytes().to_vec()
}

/// Lowercase hex digit of a value below sixteen.
pub open spec fn hex_char(n: nat) -> char {
    if n < 10 {
        crate::text::digit_char(n)
    } else if n == 10 {
        'a'
    } else if n == 11 {
        'b'
    } else if n == 12 {
        'c'
    } else if n == 13 {
        'd'
    } else if n == 14 {
        'e'
    } else {
        'f'
    }
}

/// Lowercase hex encoding, two digits per byte, high nibble first.
pub open spec fn hex_lower(bytes: Seq<u8>) -> Seq<char>
    decreases bytes.len(),
{
    if bytes.len() == 0 {
        seq![]
    } else {
        hex_lower(bytes.drop_last()) + seq![
            hex_char((bytes.last() / 16) as nat),
            hex_char((bytes.last() % 16) as nat),
        ]
    }
}

/// A lowercase hex digit.
pub open spec fn is_hex_lower(c: char) -> bool {
    ('0' <= c && c <= '9') || ('a' <= c && c <= 'f')
}

fn hex_digit(n: u8) -> (c: char)
    requires
        n < 16,
    ensures
        c == hex_char(n as nat),
{
    match n {
        0 => '0',
        1 => '1',
        2 => '2',
        3 => '3',
        4 => '4',
        5 => '5',
        6 => '6',
        7 => '7',
        8 => '8',
        9 => '9',
        10 => 'a',
        11 => 'b',
        12 => 'c',
        13 => 'd',
        14 => 'e',
        _ => 'f',
    }
}

/// Every character of a hex encoding is a lowercase hex digit, two per byte.
pub proof fn lemma_hex_shape(bytes: Seq<u8>)
    ensures
        hex_lower(bytes).len() == 2 * bytes.len(),
        forall|i: int| 0 <= i < hex_lower(bytes).len() ==> is_hex_lower(#[trigger] hex_lower(bytes)[i]),
    decreases bytes.len(),
{
    if bytes.len() > 0 {
        lemma_hex_shape(bytes.drop_last());
    }
}

/// Encodes bytes in lowercase hex (`blake3::Hash::to_hex`).
pub fn to_hex(bytes: &[u8]) -> (r: String)
    ensures
        r@ == hex_lower(bytes@),
{
    let mut s = String::new();
    let mut i: usize = 0;
    while i < bytes.len()
        invariant
            i <= bytes@.len(),
            s@ == hex_lower(bytes@.take(i as int)),
        decreases bytes@.len() - i,
    {
        let b = bytes[i];
        proof {
            assert(bytes@.take(i + 1).drop_last() =~= bytes@.take(i as int));
        }
        push_char(&mut s, hex_digit(b / 16));
        push_char(&mut s, hex_digit(b % 16));
        proof {
            assert(s@ =~= hex_lower(bytes@.take(i + 1)));
        }
        i = i + 1;
    }
    proof {
        assert(bytes@.take(bytes@.len() as int) =~= bytes@);
    }
    s
}

/// The content address of some bytes.
pub open spec fn content_address(bytes: Seq<u8>) -> Seq<char> {
    hex_lower(spec_blake3(bytes))
}

/// The content address of a file's bytes (read by the caller).
pub fn hash_bytes(bytes: &[u8]) -> (r: String)
    ensures
        r@ == content_address(bytes@),
        r@.len() == 64,
        forall|i: int| 0 <= i < r@.len() ==> is_hex_lower(#[trigger] r@[i]),
        bucketable(r@),
{
    let d = blake3_digest(bytes);
    let r = to_hex(d.as_slice());
    proof {
        lemma_hex_shape(d@);
        assert(is_ascii_chars(r@));
        lemma_ascii_bucketable(r@);
    }
    r
}

/// The content address of a text, hashed as its UTF-8 bytes.
pub fn hash_content(content: &str) -> (r: String)
    ensures
        r@ == content_address(encode_utf8(content@)),
        r@.len() == 64,
        forall|i: int| 0 <= i < r@.len() ==> is_hex_lower(#[trigger] r@[i]),
        bucketable(r@),
{
    hash_bytes(content.as_bytes())
}

} // verus!
