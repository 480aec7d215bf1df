//! Connection identifiers.

use vstd::prelude::*;

verus! {

/// Identifies one inbound connection from the handshake until it is closed.
///
/// The value is the 128-bit number of a UUID. Identifiers are drawn at random,
/// so two connections may receive the same one; every table keyed by an
/// identifier says what it does in that case.
#[derive(Clone, Copy, Debug, PartialEq, Eq, Structural, Hash, PartialOrd, Ord)]
pub struct ConnectionId(pub u128);

impl View for ConnectionId {
    type V = u128;

    open spec fn view(&self) -> u128 {
        self.0
    }
}

/// Bits that every version 4 UUID of the RFC variant has in common.
pub open spec fn is_random_uuid(bits: u128) -> bool {
    bits & 0x0000_0000_0000_f000_c000_0000_0000_0000u128
        == 0x0000_0000_0000_4000_8000_0000_0000_0000u128
}

/// Draws a fresh identifier with `uuid::Uuid::new_v4` and hands out its
/// 128-bit value (`Uuid::as_u128`).
///
/// The value is random. The contract states only what the function fixes in
/// every outcome: the version nibble is 4 and the variant bits are `10`.
#[verifier::external_body]
fn new_v4_bits() -> (bits: u128)
    ensures
        is_random_uuid(bits),
{
    uuid::Uuid::new_v4().as_u128()
}

/// The text that the `uuid` crate shows the UUID with the given 128-bit value
/// as: its hyphenated lower-case form.
pub uninterp spec fn uuid_text(bits: u128) -> Seq<char>;

/// Formats a 128-bit value as `uuid::Uuid` is displayed: `Uuid::from_u128`
/// makes the UUID, and its `Display` impl writes it.
///
/// The text depends on the value alone; the contract gives it a name.
#[verifier::external_body]
fn hyphenated(bits: u128) -> (text: String)
    ensures
        text@ == uuid_text(bits),
{
    uuid::Uuid::from_u128(bits).to_string()
}

impl ConnectionId {
    /// The identifier in the textual form of a UUID.
    pub fn to_text(&self) -> (text: String)
        ensures
            text@ == uuid_text(self@),
    {
        hyphenated(self.0)
    }
}

/// Allocates an identifier for a new connection.
///
/// Nothing is promised about uniqueness: callers handle a repeated identifier.
pub fn allocate() -> (id: ConnectionId)
    ensures
        is_random_uuid(id@),
{
    ConnectionId(new_v4_bits())
}

} // verus!
