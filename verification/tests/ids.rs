use shift::ids::{
    compose_id, generate_id, parse_id, print_id, ClientId, IdParseError, MonitorId, SessionId,
    Token,
};

#[test]
fn print_id_pads_to_32_hex_digits() {
    assert_eq!(print_id("mon_", 0), "mon_00000000000000000000000000000000");
    assert_eq!(print_id("mon_", 0x4d), "mon_0000000000000000000000000000004d");
    assert_eq!(print_id("ses_", u128::MAX), "ses_ffffffffffffffffffffffffffffffff");
    assert_eq!(
        print_id("tok_", 0x0123456789abcdef0011223344556677),
        "tok_0123456789abcdef0011223344556677"
    );
}

#[test]
fn parse_id_reads_what_print_id_wrote() {
    for v in [0u128, 1, 0x4d, 0xdead_beef, u128::MAX, 1u128 << 127] {
        assert_eq!(parse_id("mon_", &print_id("mon_", v)), Some(v));
    }
}

#[test]
fn parse_id_rejects_malformed_text() {
    assert_eq!(parse_id("mon_", ""), None);
    assert_eq!(parse_id("mon_", "mon_"), None);
    assert_eq!(parse_id("mon_", "mon_0000000000000000000000000000004"), None);
    assert_eq!(parse_id("mon_", "mon_0000000000000000000000000000004d0"), None);
    assert_eq!(parse_id("mon_", "ses_0000000000000000000000000000004d"), None);
    assert_eq!(parse_id("mon_", "mon_0000000000000000000000000000004D"), None);
    assert_eq!(parse_id("mon_", "mon_0000000000000000000000000000004g"), None);
    assert_eq!(parse_id("mon_", "mon_000000000000000000000000000000\u{e9}"), None);
    assert_eq!(parse_id("m\u{e9}n_", "m\u{e9}n_0000000000000000000000000000004d"), None);
}

#[test]
fn typed_ids_use_their_prefix() {
    assert_eq!(MonitorId(10).to_text(), "mon_0000000000000000000000000000000a");
    assert_eq!(SessionId(10).to_text(), "ses_0000000000000000000000000000000a");
    assert_eq!(Token(10).to_text(), "tok_0000000000000000000000000000000a");
    assert_eq!(ClientId(10).to_text(), "cli_0000000000000000000000000000000a");
    assert_eq!(MonitorId::parse("mon_0000000000000000000000000000000a"), Ok(MonitorId(10)));
    assert_eq!(SessionId::parse("ses_0000000000000000000000000000000a"), Ok(SessionId(10)));
    assert_eq!(Token::parse("tok_0000000000000000000000000000000a"), Ok(Token(10)));
    assert_eq!(Token::parse("mon_0000000000000000000000000000000a"), Err(IdParseError));
    assert_eq!(MonitorId::parse("mon_M"), Err(IdParseError));
}

#[test]
fn random_ids_differ() {
    assert_ne!(SessionId::rand(), SessionId::rand());
    assert_ne!(Token::rand(), Token::rand());
    assert_ne!(MonitorId::rand(), MonitorId::rand());
    assert_ne!(ClientId::rand(), ClientId::rand());
}

#[test]
fn compose_id_joins_prefix_and_parts() {
    assert_eq!(compose_id("ses", "abc", "def"), "ses_abcdef");
    assert_eq!(compose_id("", "", ""), "_");
}

#[test]
fn generate_id_is_prefix_and_two_base64_uuids() {
    let id = generate_id("ses");
    assert!(id.starts_with("ses_"));
    // Sixteen bytes are 22 base64 characters without padding.
    assert_eq!(id.len(), 4 + 22 + 22);
    assert!(id[4..].chars().all(|c| c.is_ascii_alphanumeric() || c == '+' || c == '/'));
    assert_ne!(generate_id("ses"), generate_id("ses"));
    assert!(generate_id("tok").starts_with("tok_"));
}
