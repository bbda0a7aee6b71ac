use crate::json::hex_digit;
use vstd::prelude::*;

verus! {

/// The `n` lowest hexadecimal digits of `v`, most significant first.
pub open spec fn hex_fixed(v: nat, n: nat) -> Seq<char>
    decreases n,
{
    if n == 0 {
        Seq::empty()
    } else {
        hex_fixed(v / 16, (n - 1) as nat).push(hex_digit(v % 16))
    }
}

/// Canonical text of a UUID: 32 lower-case hex digits in groups of
/// 8, 4, 4, 4 and 12, joined by hyphens.
pub open spec fn uuid_text(v: u128) -> Seq<char> {
    let h = hex_fixed(v as nat, 32);
    h.subrange(0, 8) + seq!['-'] + h.subrange(8, 12) + seq!['-'] + h.subrange(12, 16) + seq!['-']
        + h.subrange(16, 20) + seq!['-'] + h.subrange(20, 32)
}

/// The version field of a UUID: bits 76 to 79, the 13th hex digit of its text.
pub open spec fn uuid_version(v: u128) -> nat {
    ((v as nat) / 0x1000_0000_0000_0000_0000) % 16
}

/// The two top bits of the variant field, bits 62 and 63 (binary 10 for
/// RFC 4122).
pub open spec fn uuid_variant(v: u128) -> nat {
    ((v as nat) / 0x4000_0000_0000_0000) % 4
}

/// Relies on uuid::Uuid::new_v4: random bits with the version digit set to 4
/// and the variant bits set to binary 10.
#[verifier::external_body]
fn random_v4() -> (r: u128)
    ensures
        uuid_version(r) == 4,
        uuid_variant(r) == 2,
{
    uuid::Uuid::new_v4().as_u128()
}

/// Relies on uuid::Uuid::from_u128 (big-endian) and its `Display`, which
/// writes the lower-case hyphenated form.
#[verifier::external_body]
fn hyphenated(v: u128) -> (r: String)
    ensures
        r@ == uuid_text(v),
{
    uuid::Uuid::from_u128(v).to_string()
}

/// A session (correlation) identifier: a UUID held as its 128-bit value.
/// The nil UUID, all zero, means "no session".
#[derive(Clone, Copy, Debug, PartialEq, Eq, Structural)]
pub struct SessionId {
    bits: u128,
}

impl View for SessionId {
    type V = u128;

    closed spec fn view(&self) -> u128 {
        self.bits
    }
}

impl SessionId {
    /// The nil identifier.
    pub fn nil() -> (r: SessionId)
        ensures
            r@ == 0,
    {
        SessionId { bits: 0 }
    }

    /// The identifier whose big-endian 128-bit value is `bits`.
    pub fn from_u128(bits: u128) -> (r: SessionId)
        ensures
            r@ == bits,
    {
        SessionId { bits }
    }

    /// The 128-bit value of the identifier.
    pub fn as_u128(&self) -> (r: u128)
        ensures
            r == self@,
    {
        self.bits
    }

    /// Whether this is the nil identifier.
    pub fn is_nil(&self) -> (r: bool)
        ensures
            r == (self@ == 0),
    {
        self.bits == 0
    }

    /// A fresh random (version 4) identifier; never nil.
    pub fn new_v4() -> (r: SessionId)
        ensures
            uuid_version(r@) == 4,
            uuid_variant(r@) == 2,
            r@ != 0,
    {
        let bits = random_v4();
        SessionId { bits }
    }

    /// Canonical hyphenated lower-case text of the identifier.
    pub fn to_text(&self) -> (r: String)
        ensures
            r@ == uuid_text(self@),
    {
        hyphenated(self.bits)
    }
}

proof fn lemma_hex_fixed_zero(n: nat)
    ensures
        hex_fixed(0, n) =~= Seq::new(n, |i: int| '0'),
    decreases n,
{
    if n > 0 {
        lemma_hex_fixed_zero((n - 1) as nat);
    }
}

/// The nil identifier is written as thirty-two zeros in hyphenated groups.
pub proof fn lemma_nil_text()
    ensures
        uuid_text(0) == "00000000-0000-0000-0000-000000000000"@,
{
    lemma_hex_fixed_zero(32);
    reveal_strlit("00000000-0000-0000-0000-000000000000");
    assert(uuid_text(0) =~= "00000000-0000-0000-0000-000000000000"@);
}

} // verus!
