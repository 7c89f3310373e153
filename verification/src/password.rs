//! Stored password hashes: the uppercase hexadecimal SHA-256 digest of an
//! employee's identifier (hyphenated form) followed by the password.

use vstd::prelude::*;
use vstd::string::StringExecFns;
use vstd::utf8::{decode_utf8, encode_utf8};

use crate::ids::{lemma_uuid_text_ascii, uuid_text, uuid_to_text};

verus! {

/// The uppercase hexadecimal digit for `d`, which is meant to lie in
/// `0..16`.
pub open spec fn hex_upper(d: int) -> char {
    if d < 10 {
        (d + 48) as char
    } else {
        (d + 55) as char
    }
}

/// Base16 (RFC 4648) with uppercase digits: two digits per byte, the high
/// half first.
pub open spec fn hex_upper_text(bytes: Seq<u8>) -> Seq<char>
    decreases bytes.len(),
{
    if bytes.len() == 0 {
        Seq::empty()
    } else {
        seq![hex_upper((bytes[0] / 16) as int), hex_upper((bytes[0] % 16) as int)] + hex_upper_text(
            bytes.drop_first(),
        )
    }
}

/// The SHA-256 digest that `ring::digest::digest` computes.
pub uninterp spec fn sha256(data: Seq<u8>) -> Seq<u8>;

/// SHA-256 takes messages of fewer than 2^64 bits.
pub open spec fn digestible(data: Seq<u8>) -> bool {
    data.len() < 0x2000_0000_0000_0000
}

/// `ring::digest::digest(&SHA256, data)`, copied out: the 32-byte SHA-256
/// digest of `data`. The digest itself is left to the name `sha256`; ring
/// panics on messages of 2^61 bytes or more, which `requires` leaves out.
#[verifier::external_body]
fn sha256_digest(data: &[u8]) -> (d: Vec<u8>)
    requires
        digestible(data@),
    ensures
        d@ == sha256(data@),
        d@.len() == 32,
{
    ring::digest::digest(&ring::digest::SHA256, data).as_ref().to_vec()
}

/// `data_encoding::HEXUPPER.encode`: base16 with uppercase digits, high
/// half of each byte first. It may panic above `usize::MAX / 512` bytes,
/// which `requires` leaves out.
#[verifier::external_body]
fn hex_upper_encode(data: &[u8]) -> (s: String)
    requires
        data@.len() <= usize::MAX / 512,
    ensures
        s@ == hex_upper_text(data@),
{
    data_encoding::HEXUPPER.encode(data)
}

/// The stored form of `password` for the employee with identifier `id`.
pub open spec fn password_hash(password: Seq<char>, id: u128) -> Seq<char> {
    hex_upper_text(sha256(encode_utf8(uuid_text(id) + password)))
}

/// Whether `password` is short enough to be hashed: with the 36 bytes of
/// the identifier in front, its UTF-8 bytes must stay under SHA-256's
/// limit.
pub open spec fn hashable(password: Seq<char>) -> bool {
    encode_utf8(password).len() + 36 < 0x2000_0000_0000_0000
}

/// The UTF-8 encoding of a concatenation is the concatenation of the
/// encodings.
pub proof fn lemma_encode_utf8_concat(a: Seq<char>, b: Seq<char>)
    ensures
        encode_utf8(a + b) == encode_utf8(a) + encode_utf8(b),
    decreases a.len(),
{
    if a.len() == 0 {
        assert(a + b == b);
    } else {
        lemma_encode_utf8_concat(a.drop_first(), b);
        assert((a + b).drop_first() == a.drop_first() + b);
        assert((a + b)[0] == a[0]);
    }
}

/// Whether `c` is a decimal digit or one of `A` to `F`.
pub open spec fn is_hex_upper_digit(c: char) -> bool {
    ('0' <= c <= '9') || ('A' <= c <= 'F')
}

/// Base16 text has two digits per byte, each a decimal digit or `A` to `F`.
pub proof fn lemma_hex_upper_text(bytes: Seq<u8>)
    ensures
        hex_upper_text(bytes).len() == 2 * bytes.len(),
        forall|i: int|
            0 <= i < hex_upper_text(bytes).len() ==> is_hex_upper_digit(#[trigger] hex_upper_text(bytes)[i]),
    decreases bytes.len(),
{
    if bytes.len() > 0 {
        lemma_hex_upper_text(bytes.drop_first());
        let head = seq![hex_upper((bytes[0] / 16) as int), hex_upper((bytes[0] % 16) as int)];
        let rest = hex_upper_text(bytes.drop_first());
        assert(hex_upper_text(bytes) == head + rest);
        assert forall|i: int| 0 <= i < hex_upper_text(bytes).len() implies is_hex_upper_digit(
            #[trigger] hex_upper_text(bytes)[i],
        ) by {
            if i >= 2 {
                assert(hex_upper_text(bytes)[i] == rest[i - 2]);
            }
        }
    }
}

/// The stored form of `password` for the employee `id`: the uppercase
/// hexadecimal SHA-256 digest of the identifier's hyphenated form followed
/// by the password.
pub fn generate_password(password: &str, id: u128) -> (h: String)
    requires
        hashable(password@),
    ensures
        h@ == password_hash(password@, id),
        h@.len() == 64,
        forall|i: int| 0 <= i < 64 ==> is_hex_upper_digit(#[trigger] h@[i]),
{
    let mut text = uuid_to_text(id);
    text.append(password);
    proof {
        lemma_uuid_text_ascii(id);
        vstd::utf8::is_ascii_chars_encode_utf8(uuid_text(id));
        lemma_encode_utf8_concat(uuid_text(id), password@);
    }
    let bytes = text.as_str().as_bytes();
    let digest = sha256_digest(bytes);
    proof {
        lemma_hex_upper_text(digest@);
    }
    hex_upper_encode(digest.as_slice())
}

/// The stored form of a password is the hexadecimal SHA-256 digest of a
/// message that is valid UTF-8 and reads as the whole hyphenated identifier
/// followed by the whole password.
pub proof fn lemma_password_hash_message(password: Seq<char>, id: u128)
    ensures
        exists|m: Seq<u8>|
            #![trigger sha256(m)]
            password_hash(password, id) == hex_upper_text(sha256(m)) && vstd::utf8::valid_utf8(m)
                && decode_utf8(m) == uuid_text(id) + password,
{
    let m = encode_utf8(uuid_text(id) + password);
    vstd::utf8::encode_utf8_valid_utf8(uuid_text(id) + password);
    vstd::utf8::encode_utf8_decode_utf8(uuid_text(id) + password);
    assert(password_hash(password, id) == hex_upper_text(sha256(m)));
}

/// The message hashed for one (password, identifier) pair is hashed for no
/// other pair: different passwords, or different identifiers, give
/// different messages.
pub proof fn lemma_hash_message_injective(p: Seq<char>, id: u128, q: Seq<char>, id2: u128)
    requires
        encode_utf8(uuid_text(id) + p) == encode_utf8(uuid_text(id2) + q),
    ensures
        p == q,
        id == id2,
{
    vstd::utf8::encode_utf8_decode_utf8(uuid_text(id) + p);
    vstd::utf8::encode_utf8_decode_utf8(uuid_text(id2) + q);
    let a = uuid_text(id) + p;
    let b = uuid_text(id2) + q;
    assert(a == b);
    lemma_uuid_text_ascii(id);
    lemma_uuid_text_ascii(id2);
    assert(a.subrange(0, 36) == uuid_text(id));
    assert(b.subrange(0, 36) == uuid_text(id2));
    crate::ids::lemma_uuid_text_injective(id, id2);
    assert(a.subrange(36, a.len() as int) == p);
    assert(b.subrange(36, b.len() as int) == q);
}

} // verus!
