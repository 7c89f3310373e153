//! Record identifiers. An identifier is a UUID held as the `u128` whose
//! big-endian bytes are the UUID's bytes.

use vstd::prelude::*;

verus! {

/// The lowercase hexadecimal digit for `d`, which is meant to lie in
/// `0..16`.
pub open spec fn hex_lower(d: int) -> char {
    if d < 10 {
        (d + 48) as char
    } else {
        (d + 87) as char
    }
}

/// Hexadecimal digit `k` of `x`, counted from the least significant.
pub open spec fn nibble(x: int, k: nat) -> int
    decreases k,
{
    if k == 0 {
        x % 16
    } else {
        nibble(x / 16, (k - 1) as nat)
    }
}

/// `16` to the power `n`.
pub open spec fn pow16(n: nat) -> int
    decreases n,
{
    if n == 0 {
        1
    } else {
        16 * pow16((n - 1) as nat)
    }
}

/// The 32 lowercase hexadecimal digits of `id`, most significant first.
pub open spec fn hex_digits(id: u128) -> Seq<char> {
    Seq::new(32, |i: int| hex_lower(nibble(id as int, (31 - i) as nat)))
}

/// The hyphenated form of an identifier: its 32 lowercase hexadecimal
/// digits in groups of 8, 4, 4, 4 and 12, joined by `-`.
pub open spec fn uuid_text(id: u128) -> Seq<char> {
    let d = hex_digits(id);
    d.subrange(0, 8) + seq!['-'] + d.subrange(8, 12) + seq!['-'] + d.subrange(12, 16) + seq!['-']
        + d.subrange(16, 20) + seq!['-'] + d.subrange(20, 32)
}

/// The identifier that `uuid::Uuid::parse_str` reads from a text, if it
/// accepts the text.
pub uninterp spec fn uuid_parse(text: Seq<char>) -> Option<u128>;

/// Whether `id` has the version and variant bits of a random (version 4)
/// UUID.
pub open spec fn is_random_uuid(id: u128) -> bool {
    id & 0x0000_0000_0000_F000_C000_0000_0000_0000u128 == 0x0000_0000_0000_4000_8000_0000_0000_0000u128
}

/// `uuid::Uuid::from_u128(id).to_string()`: the UUID's `Display` form,
/// which is the hyphenated lowercase form of its big-endian bytes.
#[verifier::external_body]
pub(crate) fn uuid_to_text(id: u128) -> (s: String)
    ensures
        s@ == uuid_text(id),
{
    uuid::Uuid::from_u128(id).to_string()
}

/// `uuid::Uuid::parse_str`, with the parsed UUID read back as its
/// big-endian `u128`. The formats it accepts (simple, hyphenated, braced,
/// URN, in either case) are left to the name `uuid_parse`; stated here is
/// only that it reads back the hyphenated lowercase form of any UUID.
#[verifier::external_body]
pub(crate) fn parse_uuid(text: &str) -> (r: Option<u128>)
    ensures
        r == uuid_parse(text@),
        forall|id: u128| text@ == uuid_text(id) ==> r == Some(id),
{
    uuid::Uuid::parse_str(text).ok().map(|u| u.as_u128())
}

/// `uuid::Uuid::new_v4()`, read as its big-endian `u128`: random bits with
/// the version nibble set to 4 and the variant bits to `10`. Which bits
/// come out is left open.
#[verifier::external_body]
fn random_uuid() -> (id: u128)
    ensures
        is_random_uuid(id),
{
    uuid::Uuid::new_v4().as_u128()
}

/// A new random identifier.
pub fn new_id() -> (id: u128)
    ensures
        is_random_uuid(id),
{
    random_uuid()
}

/// `n` new random identifiers.
pub fn new_ids(n: usize) -> (ids: Vec<u128>)
    ensures
        ids@.len() == n,
        forall|i: int| 0 <= i < n ==> is_random_uuid(#[trigger] ids@[i]),
{
    let mut ids: Vec<u128> = Vec::new();
    let mut i: usize = 0;
    while i < n
        invariant
            i <= n,
            ids@.len() == i,
            forall|j: int| 0 <= j < i ==> is_random_uuid(#[trigger] ids@[j]),
        decreases n - i,
    {
        ids.push(random_uuid());
        i = i + 1;
    }
    ids
}

/// Every character of an identifier's hyphenated form is ASCII, and there
/// are 36 of them.
pub proof fn lemma_uuid_text_ascii(id: u128)
    ensures
        uuid_text(id).len() == 36,
        vstd::utf8::is_ascii_chars(uuid_text(id)),
{
    let d = hex_digits(id);
    assert forall|i: int| 0 <= i < 32 implies d[i] <= '\u{7f}' by {
        lemma_nibble_range(id as int, (31 - i) as nat);
    }
    let t = uuid_text(id);
    assert forall|i: int| 0 <= i < t.len() implies '\0' <= #[trigger] t[i] <= '\u{7f}' by {
        if i < 8 {
            assert(t[i] == d[i]);
        } else if i == 8 {
        } else if i < 13 {
            assert(t[i] == d[i - 1]);
        } else if i == 13 {
        } else if i < 18 {
            assert(t[i] == d[i - 2]);
        } else if i == 18 {
        } else if i < 23 {
            assert(t[i] == d[i - 3]);
        } else if i == 23 {
        } else {
            assert(t[i] == d[i - 4]);
        }
    }
}

/// Every hexadecimal digit lies in `0..16`.
pub proof fn lemma_nibble_range(x: int, k: nat)
    ensures
        0 <= nibble(x, k) < 16,
    decreases k,
{
    if k > 0 {
        lemma_nibble_range(x / 16, (k - 1) as nat);
    }
}

/// Two numbers below `16^n` with the same `n` low hexadecimal digits are
/// equal.
proof fn lemma_nibbles_determine(x: int, y: int, n: nat)
    requires
        0 <= x < pow16(n),
        0 <= y < pow16(n),
        forall|k: nat| k < n ==> nibble(x, k) == nibble(y, k),
    ensures
        x == y,
    decreases n,
{
    if n > 0 {
        let p = pow16((n - 1) as nat);
        assert(x / 16 < p) by (nonlinear_arith)
            requires
                0 <= x < 16 * p,
        ;
        assert(y / 16 < p) by (nonlinear_arith)
            requires
                0 <= y < 16 * p,
        ;
        assert forall|k: nat| k < (n - 1) as nat implies #[trigger] nibble(x / 16, k) == nibble(y / 16, k) by {
            assert(nibble(x, k + 1) == nibble(y, k + 1));
        }
        lemma_nibbles_determine(x / 16, y / 16, (n - 1) as nat);
        assert(nibble(x, 0) == nibble(y, 0));
    }
}

/// Different identifiers have different hyphenated forms.
pub proof fn lemma_uuid_text_injective(a: u128, b: u128)
    requires
        uuid_text(a) == uuid_text(b),
    ensures
        a == b,
{
    let da = hex_digits(a);
    let db = hex_digits(b);
    let ta = uuid_text(a);
    let tb = uuid_text(b);
    assert forall|i: int| 0 <= i < 32 implies da[i] == db[i] by {
        if i < 8 {
            assert(ta[i] == da[i] && tb[i] == db[i]);
        } else if i < 12 {
            assert(ta[i + 1] == da[i] && tb[i + 1] == db[i]);
        } else if i < 16 {
            assert(ta[i + 2] == da[i] && tb[i + 2] == db[i]);
        } else if i < 20 {
            assert(ta[i + 3] == da[i] && tb[i + 3] == db[i]);
        } else {
            assert(ta[i + 4] == da[i] && tb[i + 4] == db[i]);
        }
    }
    assert forall|k: nat| k < 32 implies nibble(a as int, k) == nibble(b as int, k) by {
        let i = 31 - k;
        lemma_nibble_range(a as int, k);
        lemma_nibble_range(b as int, k);
        assert(da[i] == db[i]);
        assert((31 - i) as nat == k);
    }
    reveal_with_fuel(pow16, 33);
    assert(pow16(32) == 0x1_0000_0000_0000_0000_0000_0000_0000_0000int);
    lemma_nibbles_determine(a as int, b as int, 32);
}

} // verus!
