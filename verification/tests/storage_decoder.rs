use midenscan_indexer::indexer::handlers::storage_decoder::{
    decode_as_auth_scheme, decode_as_hex, decode_as_mint_policy_authority, decode_as_number,
    decode_as_owner_config, decode_as_raw_word, decode_as_string_chunk,
    decode_as_threshold_config, decode_map_value, decode_slot, parse_felts, DecodedPayload,
    OwnerConfig, PayloadKind, PayloadValue, ALLOWED_POLICY_PROC_ROOTS, FUNGIBLE_DESCRIPTION_SLOTS,
    FUNGIBLE_NAME_CHUNK_0, MULTISIG_APPROVER_PUBLIC_KEYS, MULTISIG_PROCEDURE_THRESHOLDS, MULTISIG_THRESHOLD_CONFIG,
    OWNABLE2STEP_OWNER_CONFIG, SINGLESIG_PUB_KEY, FUNGIBLE_EXTERNAL_LINK_SLOTS, FUNGIBLE_LOGO_URI_SLOTS, SINGLESIG_SCHEME, text_payload,
};

fn felt_from_payload(bytes: &[u8], marker: u8) -> u64 {
    let mut felt_bytes = [0u8; 8];
    felt_bytes[..bytes.len()].copy_from_slice(bytes);
    felt_bytes[7] = marker;
    u64::from_le_bytes(felt_bytes)
}

fn word(felts: [u64; 4]) -> Vec<u8> {
    let mut bytes = Vec::new();
    for f in felts {
        bytes.extend_from_slice(&f.to_le_bytes());
    }
    bytes
}

fn text_value(p: &DecodedPayload) -> &str {
    match &p.value {
        PayloadValue::Text(s) => s.as_str(),
        other => panic!("not a text value: {:?}", other),
    }
}

#[test]
fn decode_string_chunk_ignores_length_hint_bytes() {
    let decoded = decode_as_string_chunk([
        felt_from_payload(b"ABCDEFG", 1),
        felt_from_payload(b"HIJKLMN", 2),
        felt_from_payload(b"", 0),
        felt_from_payload(b"", 0),
    ]);

    assert_eq!(text_value(&decoded), "ABCDEFGHIJKLMN");
    assert_eq!(decoded.display_value, "ABCDEFGHIJKLMN");
}

#[test]
fn decode_slot_for_string_chunks_has_no_embedded_nuls() {
    let mut word_bytes = Vec::new();
    word_bytes.extend_from_slice(&felt_from_payload(b"Token", 1).to_le_bytes());
    word_bytes.extend_from_slice(&felt_from_payload(b" Name", 2).to_le_bytes());
    word_bytes.extend_from_slice(&felt_from_payload(b"", 0).to_le_bytes());
    word_bytes.extend_from_slice(&felt_from_payload(b"", 0).to_le_bytes());

    let decoded = decode_slot(FUNGIBLE_NAME_CHUNK_0, &word_bytes, None).expect("decoded payload");

    assert_eq!(text_value(&decoded), "Token Name");
    assert_eq!(decoded.display_value, "Token Name");
}

#[test]
fn parse_felts_reads_little_endian_and_leaves_short_felts_zero() {
    let bytes = word([1, 0x0102030405060708, u64::MAX, 42]);
    assert_eq!(parse_felts(&bytes), [1, 0x0102030405060708, u64::MAX, 42]);
    assert_eq!(parse_felts(&bytes[..20]), [1, 0x0102030405060708, 0, 0]);
    assert_eq!(parse_felts(&[]), [0, 0, 0, 0]);
}

#[test]
fn hex_payload_is_prefixed_lowercase_hex() {
    let p = decode_as_hex(&[0x00, 0xAB, 0x0f]);
    assert_eq!(p.kind, PayloadKind::Hex);
    assert_eq!(p.kind.label(), "hex");
    assert_eq!(text_value(&p), "0x00ab0f");
    assert_eq!(p.display_value, "0x00ab0f");
}

#[test]
fn auth_schemes_and_unknown_ids() {
    let p = decode_as_auth_scheme(1);
    assert!(matches!(p.value, PayloadValue::Id(1)));
    assert_eq!(p.display_value, "EcdsaK256Keccak");
    assert_eq!(decode_as_auth_scheme(2).display_value, "Falcon512Poseidon2");
    let u = decode_as_auth_scheme(7);
    assert!(matches!(u.value, PayloadValue::Id(7)));
    assert_eq!(u.display_value, "Unknown(7)");
    // The whole felt value is the id.
    let big = decode_as_auth_scheme(0x101);
    assert!(matches!(big.value, PayloadValue::Id(0x101)));
    assert_eq!(big.display_value, "Unknown(257)");
    assert_eq!(decode_as_auth_scheme(258).display_value, "Unknown(258)");
    assert_eq!(u.kind.label(), "auth_scheme");
}

#[test]
fn mint_policy_authorities() {
    assert_eq!(decode_as_mint_policy_authority(0).display_value, "AuthControlled");
    assert_eq!(decode_as_mint_policy_authority(1).display_value, "OwnerControlled");
    let other = decode_as_mint_policy_authority(300);
    assert!(matches!(other.value, PayloadValue::Id(300)));
    assert_eq!(other.display_value, "Unknown(300)");
    assert_eq!(decode_as_mint_policy_authority(256).display_value, "Unknown(256)");
    assert_eq!(decode_as_mint_policy_authority(0).kind.label(), "mint_policy_authority");
}

#[test]
fn numbers_and_thresholds() {
    let n = decode_as_number(1234567890123);
    assert!(matches!(n.value, PayloadValue::Number(1234567890123)));
    assert_eq!(n.display_value, "1234567890123");
    assert_eq!(decode_as_number(0).display_value, "0");
    let t = decode_as_threshold_config([2, 3, 0, 0]);
    assert!(matches!(t.value, PayloadValue::Threshold { threshold: 2, num_approvers: 3 }));
    assert_eq!(t.display_value, "2/3");
    assert_eq!(t.kind.label(), "threshold_config");
}

#[test]
fn raw_word_shows_each_felt_in_fixed_width_hex() {
    let p = decode_as_raw_word([1, 0xabc, 0, u64::MAX]);
    assert_eq!(p.kind.label(), "raw_word");
    match &p.value {
        PayloadValue::Words(ws) => assert_eq!(
            ws,
            &vec![
                "0x0000000000000001".to_string(),
                "0x0000000000000abc".to_string(),
                "0x0000000000000000".to_string(),
                "0xffffffffffffffff".to_string(),
            ]
        ),
        other => panic!("not words: {:?}", other),
    }
    assert_eq!(
        p.display_value,
        "[0x0000000000000001, 0x0000000000000abc, 0x0000000000000000, 0xffffffffffffffff]"
    );
}

#[test]
fn owner_config_with_and_without_nominee() {
    let p = decode_as_owner_config(
        [0; 4],
        Some(OwnerConfig { owner: Some("mtst1owner".to_string()), nominated_owner: None }),
    );
    assert_eq!(p.kind.label(), "owner_config");
    assert_eq!(p.display_value, "owner=mtst1owner");
    match &p.value {
        PayloadValue::Owner { owner, nominated_owner } => {
            assert_eq!(owner, "mtst1owner");
            assert_eq!(nominated_owner, &None);
        }
        other => panic!("not an owner: {:?}", other),
    }
    let q = decode_as_owner_config(
        [0; 4],
        Some(OwnerConfig {
            owner: Some("a".to_string()),
            nominated_owner: Some("b".to_string()),
        }),
    );
    assert_eq!(q.display_value, "owner=a nominated=b");
    let renounced = decode_as_owner_config(
        [0; 4],
        Some(OwnerConfig { owner: None, nominated_owner: Some(String::new()) }),
    );
    assert_eq!(renounced.display_value, "owner=");
    assert!(matches!(renounced.value, PayloadValue::Owner { nominated_owner: None, .. }));
}

#[test]
fn unreadable_owner_config_is_shown_in_hex() {
    let p = decode_as_owner_config([1, 0, 0, 0x0200], None);
    assert_eq!(p.kind, PayloadKind::Hex);
    assert_eq!(
        p.display_value,
        "0x0100000000000000000000000000000000000000000000000002000000000000"
    );
}

#[test]
fn decode_slot_dispatches_on_the_slot_name() {
    let bytes = word([2, 5, 0, 0]);
    assert_eq!(decode_slot(SINGLESIG_PUB_KEY, &bytes, None).unwrap().kind, PayloadKind::Hex);
    assert_eq!(
        decode_slot(SINGLESIG_SCHEME, &bytes, None).unwrap().display_value,
        "Falcon512Poseidon2"
    );
    assert_eq!(
        decode_slot(MULTISIG_THRESHOLD_CONFIG, &bytes, None).unwrap().display_value,
        "2/5"
    );
    assert_eq!(
        decode_slot(FUNGIBLE_DESCRIPTION_SLOTS[3], &word([felt_from_payload(b"hi", 0), 0, 0, 0]), None)
            .unwrap()
            .display_value,
        "hi"
    );
    assert_eq!(
        decode_slot(
            OWNABLE2STEP_OWNER_CONFIG,
            &bytes,
            Some(OwnerConfig { owner: Some("o".to_string()), nominated_owner: None })
        )
        .unwrap()
        .display_value,
        "owner=o"
    );
    assert_eq!(decode_slot("some::other::slot", &bytes, None).unwrap().kind, PayloadKind::RawWord);
}

#[test]
fn decode_slot_rejects_words_of_the_wrong_length() {
    assert!(decode_slot(SINGLESIG_PUB_KEY, &[0u8; 31], None).is_none());
    assert!(decode_slot(SINGLESIG_PUB_KEY, &[0u8; 33], None).is_none());
    assert!(decode_map_value(ALLOWED_POLICY_PROC_ROOTS, &[], None).is_none());
}

#[test]
fn map_values_use_map_schemas_then_slot_schemas() {
    let enabled = decode_map_value(ALLOWED_POLICY_PROC_ROOTS, &word([1, 0, 0, 0]), None).unwrap();
    assert!(matches!(enabled.value, PayloadValue::Flag(true)));
    assert_eq!(enabled.display_value, "true");
    assert_eq!(enabled.kind.label(), "bool");
    let disabled = decode_map_value(ALLOWED_POLICY_PROC_ROOTS, &word([0, 0, 0, 0]), None).unwrap();
    assert_eq!(disabled.display_value, "false");
    assert_eq!(
        decode_map_value(MULTISIG_PROCEDURE_THRESHOLDS, &word([9, 0, 0, 0]), None)
            .unwrap()
            .display_value,
        "9"
    );
    // A value slot schema applies to a map of the same name.
    assert_eq!(
        decode_map_value(SINGLESIG_SCHEME, &word([1, 0, 0, 0]), None).unwrap().display_value,
        "EcdsaK256Keccak"
    );
    assert_eq!(
        decode_map_value("unknown::map", &word([0, 0, 0, 0]), None).unwrap().kind,
        PayloadKind::RawWord
    );
}

#[test]
fn maps_without_a_schema_decode_like_slots() {
    let bytes = word([0x11, 0x22, 0x33, 0x44]);
    for name in [MULTISIG_APPROVER_PUBLIC_KEYS, SINGLESIG_SCHEME, MULTISIG_THRESHOLD_CONFIG, "x::y"] {
        let m = decode_map_value(name, &bytes, None).unwrap();
        let s = decode_slot(name, &bytes, None).unwrap();
        assert_eq!(m.kind, s.kind);
        assert_eq!(m.display_value, s.display_value);
    }
    // A map schema differs from the slot of the same name.
    let m = decode_map_value(MULTISIG_PROCEDURE_THRESHOLDS, &bytes, None).unwrap();
    let s = decode_slot(MULTISIG_PROCEDURE_THRESHOLDS, &bytes, None).unwrap();
    assert_eq!(m.kind, PayloadKind::Number);
    assert_eq!(s.kind, PayloadKind::RawWord);
}

#[test]
fn text_payload_shows_its_text() {
    let p = text_payload("héllo".to_string());
    assert_eq!(p.kind.label(), "string");
    assert_eq!(text_value(&p), "héllo");
    assert_eq!(p.display_value, "héllo");
}

#[test]
fn string_chunks_decode_invalid_utf8_lossily() {
    // 0xff is not UTF-8: it becomes the replacement character.
    let p = decode_as_string_chunk([felt_from_payload(&[b'a', 0xff, b'b'], 0), 0, 0, 0]);
    assert_eq!(p.display_value, "a\u{fffd}b");
    // Zero bytes inside the payload are dropped.
    let q = decode_as_string_chunk([felt_from_payload(&[b'x', 0, b'y'], 9), 0, 0, 0]);
    assert_eq!(q.display_value, "xy");
}

#[test]
fn metadata_text_slots_decode_like_the_name_chunk() {
    let bytes = word([felt_from_payload(b"Logo", 3), felt_from_payload(b" URI", 0), 0, 0]);
    let expected = decode_slot(FUNGIBLE_NAME_CHUNK_0, &bytes, None).unwrap();
    assert_eq!(expected.display_value, "Logo URI");
    for name in FUNGIBLE_DESCRIPTION_SLOTS
        .iter()
        .chain(FUNGIBLE_LOGO_URI_SLOTS.iter())
        .chain(FUNGIBLE_EXTERNAL_LINK_SLOTS.iter())
    {
        let p = decode_slot(name, &bytes, None).unwrap();
        assert_eq!(p.kind, PayloadKind::Text);
        assert_eq!(p.display_value, expected.display_value);
        assert_eq!(text_value(&p), "Logo URI");
    }
}
