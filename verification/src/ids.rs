//! Identifiers. Every identifier of the engine is a UUID, held here by its
//! 128-bit value so that maps can be keyed by an integer.

use uuid::Uuid;
use vstd::prelude::*;

verus! {

/// What `uuid::Uuid::parse_str` gives for a text: the UUID's 128-bit value,
/// or `None` when the text is not a UUID.
pub uninterp spec fn uuid_parsed(text: Seq<char>) -> Option<u128>;

/// The lower-case hexadecimal digit of a value below 16.
pub open spec fn hex_digit(d: u128) -> char {
    if d < 10 {
        (48 + d) as char
    } else {
        (87 + d) as char
    }
}

/// The `i`-th hexadecimal digit (0 for the most significant) of a value.
pub open spec fn nibble(value: u128, i: int) -> u128 {
    (value >> ((124 - 4 * i) as u128)) & 0xf
}

/// Which hexadecimal digit stands at position `k` of a hyphenated UUID:
/// the position less the hyphens before it.
pub open spec fn digit_at(k: int) -> int {
    if k < 8 {
        k
    } else if k < 13 {
        k - 1
    } else if k < 18 {
        k - 2
    } else if k < 23 {
        k - 3
    } else {
        k - 4
    }
}

/// The hyphenated lower-case text that `Uuid::to_string` writes for a
/// value: its 32 hexadecimal digits, most significant first, with hyphens
/// at positions 8, 13, 18 and 23.
pub open spec fn uuid_text(value: u128) -> Seq<char> {
    Seq::new(
        36,
        |k: int|
            if k == 8 || k == 13 || k == 18 || k == 23 {
                '-'
            } else {
                hex_digit(nibble(value, digit_at(k)))
            },
    )
}

/// A version 4 UUID of the RFC variant: its version nibble (bits 76 to 79)
/// is 4 and its two variant bits (62 and 63) are `10`.
pub open spec fn is_random_uuid(value: u128) -> bool {
    value & 0xF000C000000000000000u128 == 0x40008000000000000000u128
}

/// Draws a fresh random (version 4) UUID with `uuid::Uuid::new_v4`. The
/// crate masks random bits and sets the version and variant bits, so the
/// value is a version 4 UUID of the RFC variant; nothing more is claimed
/// of it: the rest is random.
#[verifier::external_body]
pub(crate) fn random_uuid() -> (value: u128)
    ensures
        is_random_uuid(value),
{
    Uuid::new_v4().as_u128()
}

/// Parses a UUID with `uuid::Uuid::parse_str`. The contract only names the
/// result: the parser's grammar (hyphenated, simple, braced, URN forms) is
/// the crate's.
#[verifier::external_body]
pub fn parse_uuid(text: &str) -> (result: Option<u128>)
    ensures
        result == uuid_parsed(text@),
{
    match Uuid::parse_str(text) {
        Ok(u) => Some(u.as_u128()),
        Err(_) => None,
    }
}

/// Writes a UUID with `Uuid::to_string` (hyphenated, lower-case, 36
/// characters). The crate documents that `parse_str` accepts every format
/// it writes, so parsing the text gives the value back.
#[verifier::external_body]
pub fn uuid_to_string(value: u128) -> (text: String)
    ensures
        text@ == uuid_text(value),
        text@.len() == 36,
        uuid_parsed(text@) == Some(value),
{
    Uuid::from_u128(value).to_string()
}

/// Identifier of a game session.
#[derive(Clone, Copy, Debug, PartialEq, Eq, Hash, Structural)]
pub struct SessionId(pub u128);

/// Identifier of a world.
#[derive(Clone, Copy, Debug, PartialEq, Eq, Hash, Structural)]
pub struct WorldId(pub u128);

/// Identifier of a connected client.
#[derive(Clone, Copy, Debug, PartialEq, Eq, Hash, Structural)]
pub struct ClientId(pub u128);

impl SessionId {
    /// A fresh random session identifier: a version 4 UUID.
    pub fn new() -> (id: SessionId)
        ensures
            is_random_uuid(id.0),
    {
        SessionId(random_uuid())
    }

    pub fn from_u128(value: u128) -> (id: SessionId)
        ensures
            id.0 == value,
    {
        SessionId(value)
    }

    /// The identifier's UUID text; it parses back to the identifier.
    pub fn to_string(&self) -> (text: String)
        ensures
            text@ == uuid_text(self.0),
            uuid_parsed(text@) == Some(self.0),
    {
        uuid_to_string(self.0)
    }
}

impl WorldId {
    /// A fresh random world identifier: a version 4 UUID.
    pub fn new() -> (id: WorldId)
        ensures
            is_random_uuid(id.0),
    {
        WorldId(random_uuid())
    }

    pub fn from_u128(value: u128) -> (id: WorldId)
        ensures
            id.0 == value,
    {
        WorldId(value)
    }

    /// The identifier's UUID text; it parses back to the identifier.
    pub fn to_string(&self) -> (text: String)
        ensures
            text@ == uuid_text(self.0),
            uuid_parsed(text@) == Some(self.0),
    {
        uuid_to_string(self.0)
    }
}

impl ClientId {
    /// A fresh random client identifier: a version 4 UUID.
    pub fn new() -> (id: ClientId)
        ensures
            is_random_uuid(id.0),
    {
        ClientId(random_uuid())
    }

    pub fn from_u128(value: u128) -> (id: ClientId)
        ensures
            id.0 == value,
    {
        ClientId(value)
    }

    /// The identifier's UUID text; it parses back to the identifier.
    pub fn to_string(&self) -> (text: String)
        ensures
            text@ == uuid_text(self.0),
            uuid_parsed(text@) == Some(self.0),
    {
        uuid_to_string(self.0)
    }
}

/// Parses a client identifier from its text; `None` when the text is no UUID.
pub fn parse_client_id(text: &str) -> (id: Option<ClientId>)
    ensures
        id == (match uuid_parsed(text@) {
            Some(v) => Some(ClientId(v)),
            None => None::<ClientId>,
        }),
{
    match parse_uuid(text) {
        Some(v) => Some(ClientId(v)),
        None => None,
    }
}

} // verus!
