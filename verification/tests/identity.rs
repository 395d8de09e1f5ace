use p2p_chat::identity::{InvalidPeerId, PeerIdentity};

const ALICE: &str = "12D3KooWD3eckifWpRn9wQpMG9R9hX3sD158z7EqHWmweQAJU5SA";
const BOB: &str = "QmYyQSo1c1Ym7orWxLYvCrM2EmxFTANf8wXmmE7DWjhx5N";

#[test]
fn a_well_formed_identity_is_read() {
    let alice = PeerIdentity::parse(ALICE).unwrap();
    assert_eq!(alice.as_str(), ALICE);
    let bob = PeerIdentity::parse(BOB).unwrap();
    assert_eq!(bob.as_str(), BOB);
}

#[test]
fn a_malformed_identity_is_refused_with_the_input() {
    let error = PeerIdentity::parse("not-a-peer").unwrap_err();
    assert_eq!(error.input, "not-a-peer");
    assert!(error.reason.starts_with("base-58 decode error"));
    let error = PeerIdentity::parse("").unwrap_err();
    assert_eq!(error.input, "");
    assert!(!error.reason.is_empty());
}

#[test]
fn base58_text_that_is_no_multihash_is_refused() {
    let error = PeerIdentity::parse("abc").unwrap_err();
    assert_eq!(error.input, "abc");
    assert!(!error.reason.starts_with("base-58"));
}

#[test]
fn a_parse_outcome_is_taken_as_it_is() {
    let ok = PeerIdentity::from_parsed("typed", Ok("canonical".to_string())).unwrap();
    assert_eq!(ok.as_str(), "canonical");
    let err = PeerIdentity::from_parsed("typed", Err("why".to_string())).unwrap_err();
    assert_eq!(err, InvalidPeerId { input: "typed".to_string(), reason: "why".to_string() });
}

#[test]
fn identities_are_equal_by_their_text() {
    let a = PeerIdentity::from_text("peer-a".to_string());
    let b = PeerIdentity::from_text("peer-b".to_string());
    assert!(a.same(&a.clone()));
    assert!(!a.same(&b));
    assert_eq!(a, a.clone());
    assert_ne!(a, b);
}
