//! Peer identities: opaque tokens that are compared by their text.

use vstd::prelude::*;
use std::str::FromStr;
use crate::text::str_eq;

verus! {

/// What `libp2p::PeerId::from_str` makes of `text`: the base-58 text of the
/// peer identity it denotes, or the message of the parse error.
pub uninterp spec fn peer_id_parse(text: Seq<char>) -> Result<Seq<char>, Seq<char>>;

/// The characters of both sides of a parse result.
pub open spec fn parse_view(parsed: Result<String, String>) -> Result<Seq<char>, Seq<char>> {
    match parsed {
        Ok(text) => Ok(text@),
        Err(reason) => Err(reason@),
    }
}

/// Parses `text` with `libp2p::PeerId::from_str` and hands back the identity
/// in its base-58 form (`PeerId::to_base58`), or the parse error's message.
/// Nothing is claimed but that the outcome depends on `text` alone.
#[verifier::external_body]
fn parse_peer_id(text: &str) -> (parsed: Result<String, String>)
    ensures
        parse_view(parsed) == peer_id_parse(text@),
{
    match libp2p::PeerId::from_str(text) {
        Ok(peer) => Ok(peer.to_base58()),
        Err(error) => Err(error.to_string()),
    }
}

/// The identity of one participant.
#[derive(Debug, PartialEq, Eq)]
pub struct PeerIdentity {
    text: String,
}

impl View for PeerIdentity {
    type V = Seq<char>;

    closed spec fn view(&self) -> Seq<char> {
        self.text@
    }
}

impl Clone for PeerIdentity {
    fn clone(&self) -> (copy: Self)
        ensures
            copy == *self,
    {
        PeerIdentity { text: self.text.clone() }
    }
}

/// Why a text was not accepted as a peer identity.
#[derive(Debug, PartialEq, Eq)]
pub struct InvalidPeerId {
    /// The text as it was given.
    pub input: String,
    /// What the parser said.
    pub reason: String,
}

/// The outcome of parsing `text`, over views.
pub open spec fn parsed_identity(text: Seq<char>) -> Result<Seq<char>, (Seq<char>, Seq<char>)> {
    match peer_id_parse(text) {
        Ok(id) => Ok(id),
        Err(reason) => Err((text, reason)),
    }
}

/// What `PeerIdentity::parse` hands back, over views.
pub open spec fn identity_result_view(r: Result<PeerIdentity, InvalidPeerId>) -> Result<
    Seq<char>,
    (Seq<char>, Seq<char>),
> {
    match r {
        Ok(id) => Ok(id@),
        Err(e) => Err((e.input@, e.reason@)),
    }
}

impl PeerIdentity {
    /// Wraps the text of an identity that the transport reported.
    pub fn from_text(text: String) -> (id: Self)
        ensures
            id@ == text@,
    {
        PeerIdentity { text }
    }

    /// Turns the outcome of the parser into an identity or an error that
    /// remembers the rejected input.
    pub fn from_parsed(input: &str, parsed: Result<String, String>) -> (r: Result<
        Self,
        InvalidPeerId,
    >)
        ensures
            identity_result_view(r) == (match parsed {
                Ok(text) => Ok(text@),
                Err(reason) => Err((input@, reason@)),
            }),
    {
        match parsed {
            Ok(text) => Ok(PeerIdentity { text }),
            Err(reason) => Err(InvalidPeerId { input: input.to_owned(), reason }),
        }
    }

    /// Reads an identity that the user typed.
    pub fn parse(text: &str) -> (r: Result<Self, InvalidPeerId>)
        ensures
            identity_result_view(r) == parsed_identity(text@),
    {
        let parsed = parse_peer_id(text);
        Self::from_parsed(text, parsed)
    }

    /// The identity's text.
    pub fn as_str(&self) -> (text: &str)
        ensures
            text@ == self@,
    {
        self.text.as_str()
    }

    /// Exact equality of two identities.
    pub fn same(&self, other: &PeerIdentity) -> (same: bool)
        ensures
            same == (self@ == other@),
    {
        str_eq(self.text.as_str(), other.text.as_str())
    }
}

} // verus!
