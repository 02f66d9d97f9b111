//! Session identifiers: 128-bit values whose text form is the UUID text that
//! travels in cookies and store keys.

use vstd::prelude::*;

verus! {

/// The canonical text of a 128-bit identifier, as `uuid` prints it.
pub uninterp spec fn uuid_text(bits: u128) -> Seq<char>;

/// The identifier that `uuid` reads from `text`, if it reads one.
pub uninterp spec fn uuid_parse(text: Seq<char>) -> Option<u128>;

/// The fixed bits of a randomly generated identifier: version 4 in the
/// thirteenth hex digit, and the two leading bits `10` in the seventeenth.
pub open spec fn is_random_layout(bits: u128) -> bool {
    &&& (bits >> 76) & 0xf == 4
    &&& (bits >> 62) & 0x3 == 2
}

/// An opaque session identifier.
#[derive(Clone, Copy, Debug, PartialEq, Eq, Structural)]
pub struct SessionId {
    pub bits: u128,
}

/// Calls `uuid::Uuid::new_v4` and hands back its 128 bits. Trusted: the
/// result is drawn from the operating system's random source, and all that is
/// claimed of it is the version and variant marking that `new_v4` applies to
/// every value. The call panics if the system refuses random bytes.
#[verifier::external_body]
fn random_uuid() -> (bits: u128)
    ensures
        is_random_layout(bits),
{
    uuid::Uuid::new_v4().as_u128()
}

/// Prints `bits` through the `Display` of `uuid::Uuid`. Trusted: the text is
/// named by `uuid_text`, and `uuid::Uuid::parse_str` reads it back as `bits`.
#[verifier::external_body]
fn uuid_to_text(bits: u128) -> (text: String)
    ensures
        text@ == uuid_text(bits),
        uuid_parse(text@) == Some(bits),
{
    uuid::Uuid::from_u128(bits).to_string()
}

/// Calls `uuid::Uuid::parse_str`. Trusted: the outcome is named by
/// `uuid_parse`, with `None` standing for every parse error.
#[verifier::external_body]
fn uuid_from_text(text: &str) -> (out: Option<u128>)
    ensures
        out == uuid_parse(text@),
{
    match uuid::Uuid::parse_str(text) {
        Ok(id) => Some(id.as_u128()),
        Err(_) => None,
    }
}

impl SessionId {
    /// The text form of this identifier.
    pub open spec fn text(self) -> Seq<char> {
        uuid_text(self.bits)
    }

    /// The identifier that `text` denotes, if any.
    pub open spec fn parsed(text: Seq<char>) -> Option<SessionId> {
        match uuid_parse(text) {
            Some(bits) => Some(SessionId { bits }),
            None => None,
        }
    }

    /// Mints a new random identifier.
    pub fn generate() -> (id: SessionId)
        ensures
            is_random_layout(id.bits),
    {
        SessionId { bits: random_uuid() }
    }

    /// Reads an identifier from its text form.
    pub fn parse(text: &str) -> (out: Option<SessionId>)
        ensures
            out == SessionId::parsed(text@),
    {
        match uuid_from_text(text) {
            Some(bits) => Some(SessionId { bits }),
            None => None,
        }
    }

    /// Prints the identifier; the text reads back as the same identifier.
    pub fn to_text(&self) -> (text: String)
        ensures
            text@ == self.text(),
            SessionId::parsed(text@) == Some(*self),
    {
        uuid_to_text(self.bits)
    }
}

/// Whether `text` is the text form of some randomly generated identifier.
pub open spec fn is_generated_id_text(text: Seq<char>) -> bool {
    exists|bits: u128| is_random_layout(bits) && text == #[trigger] uuid_text(bits)
}

/// A new random device identifier in text form.
pub fn new_device_id() -> (text: String)
    ensures
        is_generated_id_text(text@),
{
    let bits = random_uuid();
    uuid_to_text(bits)
}

} // verus!
