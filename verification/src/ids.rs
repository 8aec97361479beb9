//! Random identifiers for the things the story keeps track of.
//!
//! An identifier is a version 4 UUID, held as its 128 bits (most significant
//! byte first, as `Uuid::as_u128` gives them).

use vstd::prelude::*;
use vstd::arithmetic::power::pow;

verus! {

/// The bits a version 4 UUID fixes: the version nibble and the two variant bits.
pub open spec fn v4_mask() -> u128 {
    0x0000_0000_0000_F000_C000_0000_0000_0000u128
}

/// The values of those bits in a version 4 UUID: version 4, variant RFC 4122.
pub open spec fn v4_bits() -> u128 {
    0x0000_0000_0000_4000_8000_0000_0000_0000u128
}

/// Calls `uuid::Uuid::new_v4` and reads the UUID as 128 bits. The bits are
/// random; every outcome carries version 4 and the RFC 4122 variant.
#[verifier::external_body]
pub fn random_uuid() -> (r: u128)
    ensures
        r & v4_mask() == v4_bits(),
{
    uuid::Uuid::new_v4().as_u128()
}

/// Lower-case hexadecimal digit.
pub open spec fn hex_char(d: int) -> char {
    if d < 10 { digit_of(d) } else if d == 10 { 'a' } else if d == 11 { 'b' } else if d == 12 { 'c' }
    else if d == 13 { 'd' } else if d == 14 { 'e' } else { 'f' }
}

/// Decimal digit `d < 10`.
pub open spec fn digit_of(d: int) -> char {
    crate::text::digit_char(d as nat)
}

/// The 32 hexadecimal digits of 128 bits, most significant first.
pub open spec fn hex32(bits: u128) -> Seq<char> {
    Seq::new(32, |k: int| hex_char((bits as int / pow(16, (31 - k) as nat)) % 16))
}

/// The hyphenated form `xxxxxxxx-xxxx-xxxx-xxxx-xxxxxxxxxxxx` of 128 bits.
pub open spec fn uuid_text(bits: u128) -> Seq<char> {
    let h = hex32(bits);
    h.subrange(0, 8) + seq!['-'] + h.subrange(8, 12) + seq!['-'] + h.subrange(12, 16) + seq!['-']
        + h.subrange(16, 20) + seq!['-'] + h.subrange(20, 32)
}

/// Calls the `Display` of `uuid::Uuid` on `Uuid::from_u128(bits)`: the
/// hyphenated lower-case hexadecimal form.
#[verifier::external_body]
pub fn uuid_to_text(bits: u128) -> (r: String)
    ensures
        r@ == uuid_text(bits),
{
    uuid::Uuid::from_u128(bits).to_string()
}

/// Identifies a character or creature.
#[derive(Debug, Clone, Copy, PartialEq, Eq, Hash, Structural)]
pub struct CharacterId(pub u128);

/// Identifies an entity of the story (a person, place, or thing).
#[derive(Debug, Clone, Copy, PartialEq, Eq, Hash, Structural)]
pub struct EntityId(pub u128);

/// Identifies a remembered story fact.
#[derive(Debug, Clone, Copy, PartialEq, Eq, Hash, Structural)]
pub struct FactId(pub u128);

/// Identifies a pending consequence.
#[derive(Debug, Clone, Copy, PartialEq, Eq, Hash, Structural)]
pub struct ConsequenceId(pub u128);

impl CharacterId {
    pub fn new() -> (r: Self)
        ensures
            r.0 & v4_mask() == v4_bits(),
    {
        CharacterId(random_uuid())
    }
}

impl EntityId {
    pub fn new() -> (r: Self)
        ensures
            r.0 & v4_mask() == v4_bits(),
    {
        EntityId(random_uuid())
    }
}

impl FactId {
    pub fn new() -> (r: Self)
        ensures
            r.0 & v4_mask() == v4_bits(),
    {
        FactId(random_uuid())
    }
}

impl ConsequenceId {
    pub fn new() -> (r: Self)
        ensures
            r.0 & v4_mask() == v4_bits(),
    {
        ConsequenceId(random_uuid())
    }

    /// The hyphenated text of the identifier.
    pub fn to_text(&self) -> (r: String)
        ensures
            r@ == uuid_text(self.0),
    {
        uuid_to_text(self.0)
    }
}

} // verus!
