use midenscan_indexer::db::account_verified_component::{
    canonical_component_rows, canonicalize_procedure_digests,
};
use midenscan_indexer::db::models::{DatabaseAccountVerifiedComponent, DatabaseNoteVerifiedScript};
use midenscan_indexer::db::note_verified_script::{canonical_script_rows, canonicalize_script_root};
use midenscan_indexer::indexer::handlers::note::normalize_script_root;
use midenscan_indexer::indexer::seed::{
    build_standard_components, standard_component_row, StandardComponentData,
};

fn strings(items: &[&str]) -> Vec<String> {
    items.iter().map(|s| s.to_string()).collect()
}

#[test]
fn canonicalize_procedure_digests_sorts_and_deduplicates() {
    let canonical = canonicalize_procedure_digests(vec![
        "digest-b".to_string(),
        "digest-a".to_string(),
        "digest-b".to_string(),
        String::new(),
    ]);

    assert_eq!(canonical, vec!["digest-a".to_string(), "digest-b".to_string()]);
}

#[test]
fn canonicalize_script_root_normalizes_hex() {
    assert_eq!(canonicalize_script_root(" 0xAbCd ".to_string()), "abcd");
}

#[test]
fn canonical_digests_of_nothing_is_empty() {
    assert!(canonicalize_procedure_digests(vec![]).is_empty());
    assert!(canonicalize_procedure_digests(strings(&["", ""])).is_empty());
}

#[test]
fn canonical_digests_are_idempotent() {
    let once = canonicalize_procedure_digests(strings(&["0xff", "0x01", "", "0xab", "0x01"]));
    assert_eq!(once, strings(&["0x01", "0xab", "0xff"]));
    let twice = canonicalize_procedure_digests(once.clone());
    assert_eq!(twice, once);
}

#[test]
fn canonical_digests_ignore_order_and_repetition() {
    let a = canonicalize_procedure_digests(strings(&["c", "a", "b"]));
    let b = canonicalize_procedure_digests(strings(&["b", "b", "c", "a", "c"]));
    assert_eq!(a, b);
    assert_eq!(a, strings(&["a", "b", "c"]));
}

#[test]
fn canonical_digests_order_by_characters() {
    // "B" (66) comes before "a" (97); a prefix comes before its extensions.
    let out = canonicalize_procedure_digests(strings(&["ab", "a", "B"]));
    assert_eq!(out, strings(&["B", "a", "ab"]));
}

#[test]
fn script_root_loses_every_leading_prefix_and_whitespace() {
    assert_eq!(canonicalize_script_root("\t0x0xDEADbeef\n".to_string()), "deadbeef");
    assert_eq!(canonicalize_script_root("abc".to_string()), "abc");
    assert_eq!(canonicalize_script_root("".to_string()), "");
    assert_eq!(canonicalize_script_root("   ".to_string()), "");
    assert_eq!(normalize_script_root("0xABC".to_string()), "abc");
}

#[test]
fn script_root_with_upper_prefix_keeps_it_lowercased() {
    // Only a lowercase `0x` is stripped; `0X` is lowercased into `0x`.
    assert_eq!(canonicalize_script_root("0X1F".to_string()), "0x1f");
}

#[test]
fn script_root_canonicalization_is_idempotent() {
    let once = canonicalize_script_root(" 0xAbCd ".to_string());
    assert_eq!(canonicalize_script_root(once.clone()), once);
}

#[test]
fn component_rows_canonicalize_only_the_digests() {
    let rows = canonical_component_rows(vec![DatabaseAccountVerifiedComponent {
        id: vec![1, 2, 3],
        name: "BasicWallet".to_string(),
        procedure_digests: strings(&["z", "", "y", "z"]),
        rust: Some("src".to_string()),
        masm: None,
        timestamp: 7,
        is_custom: true,
    }]);
    assert_eq!(rows.len(), 1);
    assert_eq!(rows[0].id, vec![1, 2, 3]);
    assert_eq!(rows[0].name, "BasicWallet");
    assert_eq!(rows[0].procedure_digests, strings(&["y", "z"]));
    assert_eq!(rows[0].rust, Some("src".to_string()));
    assert_eq!(rows[0].masm, None);
    assert_eq!(rows[0].timestamp, 7);
    assert!(rows[0].is_custom);
}

#[test]
fn script_rows_canonicalize_only_the_root() {
    let rows = canonical_script_rows(vec![
        DatabaseNoteVerifiedScript {
            id: vec![9],
            name: "P2ID".to_string(),
            script_root: " 0xAB ".to_string(),
            rust: None,
            masm: Some("begin end".to_string()),
            timestamp: 0,
            is_custom: false,
        },
        DatabaseNoteVerifiedScript {
            id: vec![8],
            name: "SWAP".to_string(),
            script_root: "cd".to_string(),
            rust: None,
            masm: None,
            timestamp: 1,
            is_custom: true,
        },
    ]);
    assert_eq!(rows.len(), 2);
    assert_eq!(rows[0].script_root, "ab");
    assert_eq!(rows[0].name, "P2ID");
    assert_eq!(rows[0].masm, Some("begin end".to_string()));
    assert_eq!(rows[1].script_root, "cd");
    assert_eq!(rows[1].id, vec![8]);
    assert!(rows[1].is_custom);
}

#[test]
fn standard_components_get_stable_name_based_ids() {
    let rows = build_standard_components(vec![
        StandardComponentData {
            name: "BasicWallet".to_string(),
            procedure_digests: strings(&["0x01", "0x02"]),
        },
        StandardComponentData {
            name: "AuthSingleSig".to_string(),
            procedure_digests: vec![],
        },
    ]);
    assert_eq!(rows.len(), 2);
    assert_eq!(
        rows[0].id,
        vec![242, 122, 217, 222, 129, 182, 82, 153, 175, 178, 34, 79, 46, 112, 50, 244]
    );
    assert_eq!(
        rows[1].id,
        vec![206, 43, 171, 34, 230, 48, 90, 82, 155, 42, 201, 38, 76, 28, 92, 157]
    );
    assert_eq!(rows[0].name, "BasicWallet");
    assert_eq!(rows[0].procedure_digests, strings(&["0x01", "0x02"]));
    assert_eq!(rows[0].rust, None);
    assert_eq!(rows[0].masm, None);
    assert_eq!(rows[0].timestamp, 0);
    assert!(!rows[0].is_custom);
    // Version 5 and the RFC 4122 variant.
    assert_eq!(rows[1].id[6] >> 4, 5);
    assert_eq!(rows[1].id[8] >> 6, 2);
    // Seeding again gives the same ids.
    let again = build_standard_components(vec![StandardComponentData {
        name: "BasicWallet".to_string(),
        procedure_digests: vec![],
    }]);
    assert_eq!(again[0].id, rows[0].id);
}

#[test]
fn a_standard_component_row_keeps_the_given_id() {
    let row = standard_component_row(
        vec![7; 16],
        StandardComponentData { name: "AuthNoAuth".to_string(), procedure_digests: strings(&["0xaa"]) },
    );
    assert_eq!(row.id, vec![7; 16]);
    assert_eq!(row.name, "AuthNoAuth");
    assert_eq!(row.procedure_digests, strings(&["0xaa"]));
    assert_eq!(row.timestamp, 0);
    assert!(!row.is_custom);
    assert!(row.rust.is_none() && row.masm.is_none());
}

#[test]
fn script_root_is_formatted_as_lowercase_hex_without_prefix() {
    let script_root = normalize_script_root(
        "0x94a7c1b5d6e3f20817263544ffaa00bbccdd11223344556677889900aabbccdd".to_string(),
    );

    assert!(!script_root.starts_with("0x"));
    assert_eq!(script_root, script_root.to_ascii_lowercase());
}

#[test]
fn script_root_in_uppercase_is_lowercased_without_prefix() {
    let root = normalize_script_root(
        "0x94A7C1B5D6E3F20817263544FFAA00BBCCDD11223344556677889900AABBCCDD".to_string(),
    );
    assert!(!root.starts_with("0x"));
    assert_eq!(root, root.to_ascii_lowercase());
    assert_eq!(root.len(), 64);
}
