use media_savant_api::ident::{new_device_id, SessionId};

const SAMPLE: u128 = 0xa1a2a3a4b1b2c1c2d1d2d3d4d5d6d7d8;

#[test]
fn identifier_prints_hyphenated_lower_case() {
    assert_eq!(SessionId { bits: SAMPLE }.to_text(), "a1a2a3a4-b1b2-c1c2-d1d2-d3d4d5d6d7d8");
    assert_eq!(SessionId { bits: 0 }.to_text(), "00000000-0000-0000-0000-000000000000");
    assert_eq!(SessionId { bits: u128::MAX }.to_text(), "ffffffff-ffff-ffff-ffff-ffffffffffff");
}

#[test]
fn identifier_is_read_from_its_text() {
    assert_eq!(
        SessionId::parse("a1a2a3a4-b1b2-c1c2-d1d2-d3d4d5d6d7d8"),
        Some(SessionId { bits: SAMPLE })
    );
}

#[test]
fn identifier_is_read_from_the_other_forms() {
    let expected = Some(SessionId { bits: SAMPLE });
    assert_eq!(SessionId::parse("a1a2a3a4b1b2c1c2d1d2d3d4d5d6d7d8"), expected);
    assert_eq!(SessionId::parse("A1A2A3A4-B1B2-C1C2-D1D2-D3D4D5D6D7D8"), expected);
    assert_eq!(SessionId::parse("{a1a2a3a4-b1b2-c1c2-d1d2-d3d4d5d6d7d8}"), expected);
    assert_eq!(SessionId::parse("urn:uuid:a1a2a3a4-b1b2-c1c2-d1d2-d3d4d5d6d7d8"), expected);
}

#[test]
fn malformed_text_is_no_identifier() {
    for s in [
        "",
        "not-a-uuid",
        "a1a2a3a4-b1b2-c1c2-d1d2-d3d4d5d6d7d",
        "a1a2a3a4-b1b2-c1c2-d1d2-d3d4d5d6d7d8a",
        "a1a2a3a4_b1b2_c1c2_d1d2_d3d4d5d6d7d8",
        "g1a2a3a4-b1b2-c1c2-d1d2-d3d4d5d6d7d8",
        " a1a2a3a4-b1b2-c1c2-d1d2-d3d4d5d6d7d8",
    ] {
        assert_eq!(SessionId::parse(s), None, "{s:?}");
    }
}

#[test]
fn text_reads_back_as_the_same_identifier() {
    for bits in [0u128, 1, SAMPLE, u128::MAX, 0x0123456789abcdef0123456789abcdef] {
        let id = SessionId { bits };
        assert_eq!(SessionId::parse(&id.to_text()), Some(id));
    }
}

#[test]
fn generated_identifiers_are_random_version_four() {
    let a = SessionId::generate();
    let b = SessionId::generate();
    for id in [a, b] {
        assert_eq!((id.bits >> 76) & 0xf, 4);
        assert_eq!((id.bits >> 62) & 0x3, 2);
    }
    assert_ne!(a, b);
}

#[test]
fn generated_device_identifiers_are_identifier_text() {
    let text = new_device_id();
    assert_eq!(text.len(), 36);
    let id = SessionId::parse(&text).unwrap();
    assert_eq!(id.to_text(), text);
    assert_eq!((id.bits >> 76) & 0xf, 4);
    assert_eq!((id.bits >> 62) & 0x3, 2);
}
