use midenscan_indexer::db::account::AccountMissingCodeCommitment;
use midenscan_indexer::db::models::{
    DatabaseAccountStorageSlotType, DatabaseMidenAccountStorageMode, DatabaseMidenAccountType,
    DatabaseMidenNoteType,
};
use midenscan_indexer::indexer::backfill::{
    code_commitment_from_block, group_by_deployment_block, should_report_progress,
    updated_account_codes, BackfillProgress, UpdatedAccountCode,
};
use midenscan_indexer::indexer::handlers::account::{
    account_rows, AccountCodeData, AccountPatchData, FungibleFaucetData, RemovedAssetData,
    StorageMapData, StorageMapEntryData, StorageValueData, UpdatedAccountData, VaultAssetData,
};
use midenscan_indexer::indexer::handlers::block::block_row;
use midenscan_indexer::indexer::handlers::block_data::{BlockHeaderData, HandlerError};
use midenscan_indexer::indexer::handlers::note::{
    note_rows, AttachmentData, NoteAssetData, OutputNoteData, PublicNoteData,
};
use midenscan_indexer::indexer::handlers::nullifier::nullifier_rows;
use midenscan_indexer::indexer::handlers::storage_decoder::{PayloadKind, SINGLESIG_SCHEME};
use midenscan_indexer::indexer::handlers::transaction::{
    transaction_rows, InputNoteData, OutputNoteHeaderData, TransactionData,
};

fn header() -> BlockHeaderData {
    BlockHeaderData {
        commitment: vec![0xaa, 0xbb],
        commitment_hex: "0xaabb".to_string(),
        block_number: 12,
        version: 1,
        timestamp: 1_700_000_000,
        chain_commitment: vec![1],
        account_root: vec![2],
        nullifier_root: vec![3],
        note_root: vec![4],
        tx_commitment: vec![5],
        tx_kernel_commitment: vec![6],
        sub_commitment: vec![7],
    }
}

const T12_0: u128 = 1_200_000_000_000_000_000_000;

#[test]
fn block_row_copies_the_header() {
    let h = header();
    let b = block_row(&h, 3).unwrap();
    assert_eq!(b.block_commitment, vec![0xaa, 0xbb]);
    assert_eq!(b.block_number, 12);
    assert_eq!(b.version, 1);
    assert_eq!(b.timestamp, 1_700_000_000);
    assert_eq!(b.chain_commitment, vec![1]);
    assert_eq!(b.account_root, vec![2]);
    assert_eq!(b.nullifier_root, vec![3]);
    assert_eq!(b.note_root, vec![4]);
    assert_eq!(b.tx_commitment, vec![5]);
    assert_eq!(b.proof_commitment, vec![6]);
    assert_eq!(b.sub_commitment, vec![7]);
    assert_eq!(b.number_of_transactions, 3);
}

#[test]
fn block_row_rejects_a_transaction_count_beyond_u32() {
    let h = header();
    if usize::BITS > 32 {
        let too_many = (u32::MAX as usize) + 1;
        assert_eq!(block_row(&h, too_many).unwrap_err(), HandlerError::IndexOutOfRange);
    }
    assert_eq!(block_row(&h, u32::MAX as usize).unwrap().number_of_transactions, u32::MAX);
}

#[test]
fn nullifier_rows_are_numbered_in_order() {
    let h = header();
    let rows = nullifier_rows(&h, &vec![vec![1, 1], vec![2, 2]]).unwrap();
    assert_eq!(rows.len(), 2);
    assert_eq!(rows[0].nullifier, vec![1, 1]);
    assert_eq!(rows[1].nullifier, vec![2, 2]);
    assert_eq!(rows[1].nullifier_index, 1);
    assert_eq!(rows[1].block_number, 12);
    assert_eq!(rows[1].timestamp, 1_700_000_000);
    assert_eq!(rows[0].internal_time, T12_0);
    assert_eq!(rows[1].internal_time, T12_0 + 10_000_000_000);
    assert!(nullifier_rows(&h, &vec![]).unwrap().is_empty());
}

#[test]
fn transaction_rows_link_notes_to_their_transaction() {
    let h = header();
    let txs = vec![
        TransactionData {
            id: vec![0x10],
            id_hex: "0x10".to_string(),
            account_bech: "mtst1acc".to_string(),
            initial_state_commitment: vec![0],
            final_state_commitment: vec![1],
            input_notes: vec![
                InputNoteData { bytes: vec![0x01], nullifier_hex: "0xn1".to_string() },
                InputNoteData { bytes: vec![0x02], nullifier_hex: "0xn2".to_string() },
            ],
            output_notes: vec![],
        },
        TransactionData {
            id: vec![0x20],
            id_hex: "0x20".to_string(),
            account_bech: "mtst1bcc".to_string(),
            initial_state_commitment: vec![2],
            final_state_commitment: vec![3],
            input_notes: vec![],
            output_notes: vec![OutputNoteHeaderData {
                bytes: vec![0x30],
                note_id_hex: "0xnote".to_string(),
            }],
        },
    ];
    let rows = transaction_rows(&h, &txs).unwrap();
    assert_eq!(rows.transactions.len(), 2);
    assert_eq!(rows.transactions[1].transaction_id, vec![0x20]);
    assert_eq!(rows.transactions[1].account_update_id, "mtst1bcc_0xaabb");
    assert_eq!(rows.transactions[1].account_bech, "mtst1bcc");
    assert_eq!(rows.transactions[1].transaction_index, 1);
    assert_eq!(rows.transactions[1].initial_state_commitment, vec![2]);
    assert_eq!(rows.transactions[1].final_state_commitment, vec![3]);
    assert_eq!(rows.transactions[1].internal_time, T12_0 + 10_000_000_000);
    assert_eq!(rows.input_notes.len(), 2);
    assert_eq!(rows.input_notes[1].transaction_input_note_id, "0x10_0xn2");
    assert_eq!(rows.input_notes[1].transaction_id, vec![0x10]);
    assert_eq!(rows.input_notes[1].nullifier, vec![0x02]);
    assert_eq!(rows.output_notes.len(), 1);
    assert_eq!(rows.output_notes[0].transaction_output_note_id, "0x20_0xnote");
    assert_eq!(rows.output_notes[0].note_id, vec![0x30]);
}

fn public_note(tag: u32, leaf: u16) -> OutputNoteData {
    OutputNoteData {
        note_id: vec![leaf as u8],
        note_id_hex: format!("0xnote{}", leaf),
        recipient: Some(vec![9]),
        sender_bech: "mtst1sender".to_string(),
        note_type: DatabaseMidenNoteType::Public,
        tag,
        batch_index: 0,
        note_index_in_batch: leaf as usize,
        leaf_index: leaf,
        public: Some(PublicNoteData {
            nullifier: vec![0xee],
            script_root_hex: "0xABCD".to_string(),
            script_code: "begin end".to_string(),
            inputs: vec![1, 2, 3],
        }),
        attachments: vec![
            AttachmentData { scheme: 1, bytes: vec![1] },
            AttachmentData { scheme: 2, bytes: vec![2, 2] },
        ],
        assets: Some(vec![
            NoteAssetData {
                faucet_id_prefix: vec![0xfa],
                faucet_id_hex: "0xfa".to_string(),
                fungible_amount: Some(500),
            },
            NoteAssetData {
                faucet_id_prefix: vec![0xfb],
                faucet_id_hex: "0xfb".to_string(),
                fungible_amount: None,
            },
        ]),
    }
}

fn private_note(tag: u32, leaf: u16) -> OutputNoteData {
    OutputNoteData {
        note_id: vec![leaf as u8],
        note_id_hex: format!("0xnote{}", leaf),
        recipient: None,
        sender_bech: "mtst1sender".to_string(),
        note_type: DatabaseMidenNoteType::Private,
        tag,
        batch_index: 1,
        note_index_in_batch: 0,
        leaf_index: leaf,
        public: None,
        attachments: vec![],
        assets: None,
    }
}

#[test]
fn note_rows_hold_public_details_attachments_assets_and_tag_counts() {
    let h = header();
    let notes = vec![public_note(7, 0), private_note(8, 1), private_note(7, 2)];
    let rows = note_rows(&h, &notes);
    assert_eq!(rows.notes.len(), 3);
    let n0 = &rows.notes[0];
    assert_eq!(n0.note_id, vec![0]);
    assert_eq!(n0.recipient, Some(vec![9]));
    assert_eq!(n0.sender, "mtst1sender");
    assert_eq!(n0.note_type, DatabaseMidenNoteType::Public);
    assert_eq!(n0.nullifier, Some(vec![0xee]));
    assert_eq!(n0.script_root, Some("abcd".to_string()));
    assert_eq!(n0.script_code, Some("begin end".to_string()));
    assert_eq!(n0.inputs, Some(vec![1, 2, 3]));
    assert_eq!(n0.internal_time, T12_0);
    let n1 = &rows.notes[1];
    assert_eq!(n1.nullifier, None);
    assert_eq!(n1.script_root, None);
    assert_eq!(n1.inputs, None);
    assert_eq!(n1.batch_index, 1);
    assert_eq!(n1.leaf_index, 1);
    assert_eq!(rows.notes[2].internal_time, T12_0 + 20_000_000_000);

    assert_eq!(rows.attachments.len(), 2);
    assert_eq!(rows.attachments[1].note_attachment_id, "0xnote0_1");
    assert_eq!(rows.attachments[1].position, 1);
    assert_eq!(rows.attachments[1].scheme, 2);
    assert_eq!(rows.attachments[1].content, Some(vec![2, 2]));

    assert_eq!(rows.assets.len(), 2);
    assert_eq!(rows.assets[0].note_asset_id, "0xnote0_0xfa");
    assert_eq!(rows.assets[0].amount, 500);
    assert_eq!(rows.assets[1].faucet_id_prefix, vec![0xfb]);
    assert_eq!(rows.assets[1].amount, 1);

    assert_eq!(rows.tags.len(), 2);
    let count = |t: u32| rows.tags.iter().find(|r| r.note_tag == t).map(|r| r.number_of_notes);
    assert_eq!(count(7), Some(2));
    assert_eq!(count(8), Some(1));
    let total: u32 = rows.tags.iter().map(|r| r.number_of_notes).sum();
    assert_eq!(total as usize, notes.len());
    assert!(rows.tags.iter().all(|r| r.number_of_notes > 0));
}

fn wallet(bech: &str, patch: Option<AccountPatchData>) -> UpdatedAccountData {
    UpdatedAccountData {
        account_bech: bech.to_string(),
        account_id: vec![1, 2],
        account_id_prefix: vec![1],
        storage_mode: DatabaseMidenAccountStorageMode::Public,
        final_state_commitment: vec![0xfc],
        patch,
    }
}

fn word(first: u64) -> Vec<u8> {
    let mut w = first.to_le_bytes().to_vec();
    w.extend_from_slice(&[0u8; 24]);
    w
}

#[test]
fn account_rows_for_a_new_faucet_and_a_private_account() {
    let h = header();
    let faucet = wallet(
        "mtst1faucet",
        Some(AccountPatchData {
            code: Some(AccountCodeData {
                account_type: DatabaseMidenAccountType::FungibleFaucet,
                code: "proc foo end".to_string(),
                code_size: 12,
                procedure_roots: vec!["0xr1".to_string()],
                commitment_hex: "0xcode".to_string(),
                fungible_faucet: Some(FungibleFaucetData {
                    symbol: "TOK".to_string(),
                    decimals: 8,
                    max_supply: 1_000_000,
                }),
            }),
            final_nonce: Some(1),
            updated_assets: vec![],
            removed_assets: vec![],
            values: vec![],
            maps: vec![],
        }),
    );
    let private = UpdatedAccountData {
        storage_mode: DatabaseMidenAccountStorageMode::Private,
        ..wallet("mtst1private", None)
    };
    let rows = account_rows(&h, &vec![faucet, private]).unwrap();
    assert_eq!(rows.accounts.len(), 2);
    let a = &rows.accounts[0];
    assert_eq!(a.account_type, Some(DatabaseMidenAccountType::FungibleFaucet));
    assert_eq!(a.code, Some("proc foo end".to_string()));
    assert_eq!(a.code_size, 12);
    assert_eq!(a.code_procedure_roots, Some(vec!["0xr1".to_string()]));
    assert_eq!(a.code_commitment, Some("0xcode".to_string()));
    assert_eq!(a.deployed_at_block_number, 12);
    assert_eq!(a.deployed_at_updated_account_index, 0);
    let p = &rows.accounts[1];
    assert_eq!(p.storage_mode, DatabaseMidenAccountStorageMode::Private);
    assert_eq!(p.account_type, None);
    assert_eq!(p.code, None);
    assert_eq!(p.code_size, 0);
    assert_eq!(p.deployed_at_internal_time, T12_0 + 10_000_000_000);
    assert_eq!(rows.updates[0].account_update_id, "mtst1faucet_0xaabb");
    assert_eq!(rows.updates[0].nonce_delta, Some(1));
    assert_eq!(rows.updates[1].nonce_delta, None);
    assert_eq!(rows.updates[1].updated_account_index, 1);
    assert_eq!(rows.fungible_faucets.len(), 1);
    assert_eq!(rows.fungible_faucets[0].account_bech, "mtst1faucet");
    assert_eq!(rows.fungible_faucets[0].faucet_id_prefix, vec![1]);
    assert_eq!(rows.fungible_faucets[0].symbol, Some("TOK".to_string()));
    assert_eq!(rows.fungible_faucets[0].decimals, Some(8));
    assert_eq!(rows.fungible_faucets[0].max_supply, Some(1_000_000));
    assert!(rows.vault_assets.is_empty());
    assert!(rows.storage_slots.is_empty());
}

#[test]
fn account_rows_keep_the_latest_vault_and_storage_changes() {
    let h = header();
    let first = wallet(
        "mtst1w",
        Some(AccountPatchData {
            code: None,
            final_nonce: Some(2),
            updated_assets: vec![VaultAssetData {
                faucet_id_prefix: vec![0xfa],
                asset_id_hex: "0xfa".to_string(),
                fungible_amount: Some(100),
            }],
            removed_assets: vec![],
            values: vec![StorageValueData {
                slot_name: SINGLESIG_SCHEME.to_string(),
                slot_id: "s0".to_string(),
                value: Some(word(1)),
                owner_config: None,
            }],
            maps: vec![StorageMapData {
                slot_name: "some::map".to_string(),
                slot_id: "m0".to_string(),
                entries: Some(vec![StorageMapEntryData {
                    key: vec![0x01],
                    key_hex: "0x01".to_string(),
                    value: word(5),
                    owner_config: None,
                }]),
            }],
        }),
    );
    let second = wallet(
        "mtst1w",
        Some(AccountPatchData {
            code: None,
            final_nonce: Some(3),
            updated_assets: vec![VaultAssetData {
                faucet_id_prefix: vec![0xfb],
                asset_id_hex: "0xnft".to_string(),
                fungible_amount: None,
            }],
            removed_assets: vec![RemovedAssetData {
                faucet_id_prefix: vec![0xfa],
                asset_id_hex: "0xfa".to_string(),
            }],
            values: vec![StorageValueData {
                slot_name: SINGLESIG_SCHEME.to_string(),
                slot_id: "s0".to_string(),
                value: None,
                owner_config: None,
            }],
            maps: vec![],
        }),
    );
    let rows = account_rows(&h, &vec![first, second]).unwrap();

    assert_eq!(rows.vault_assets.len(), 2);
    let vault = |id: &str| rows.vault_assets.iter().find(|r| r.account_vault_asset_id == id);
    assert_eq!(vault("mtst1w_0xfa").unwrap().amount, 0);
    assert_eq!(vault("mtst1w_0xnft").unwrap().amount, 1);
    assert_eq!(vault("mtst1w_0xnft").unwrap().faucet_id_prefix, vec![0xfb]);

    let slot = |id: &str| rows.storage_slots.iter().find(|r| r.account_storage_slot_id == id);
    let s0 = slot("mtst1w_s0").unwrap();
    assert_eq!(s0.value, vec![0u8; 32]);
    assert_eq!(s0.account_storage_slot_type, DatabaseAccountStorageSlotType::Value);
    assert_eq!(s0.last_updated_at_account_update_id, "mtst1w_0xaabb");
    let decoded = s0.decoded_payload.as_ref().unwrap();
    assert_eq!(decoded.kind, PayloadKind::AuthScheme);
    assert_eq!(decoded.display_value, "Unknown(0)");
    let m0 = slot("mtst1w_m0").unwrap();
    assert_eq!(m0.account_storage_slot_type, DatabaseAccountStorageSlotType::StorageMap);
    assert_eq!(m0.value, vec![0u8; 32]);
    assert!(m0.decoded_payload.is_none());

    assert_eq!(rows.storage_slot_maps.len(), 1);
    let e = &rows.storage_slot_maps[0];
    assert_eq!(e.account_storage_slot_map_id, "mtst1w_m0_0x01");
    assert_eq!(e.key, vec![0x01]);
    assert_eq!(e.value, word(5));
    assert_eq!(e.decoded_payload.as_ref().unwrap().kind, PayloadKind::RawWord);
}

#[test]
fn account_rows_reject_an_amount_beyond_i64() {
    let h = header();
    let acc = wallet(
        "mtst1w",
        Some(AccountPatchData {
            code: None,
            final_nonce: None,
            updated_assets: vec![VaultAssetData {
                faucet_id_prefix: vec![0xfa],
                asset_id_hex: "0xfa".to_string(),
                fungible_amount: Some(u64::MAX),
            }],
            removed_assets: vec![],
            values: vec![],
            maps: vec![],
        }),
    );
    assert_eq!(account_rows(&h, &vec![acc]).unwrap_err(), HandlerError::AmountOutOfRange);
}

fn missing(bech: &str, block: u32) -> AccountMissingCodeCommitment {
    AccountMissingCodeCommitment {
        account_bech: bech.to_string(),
        account_id: bech.as_bytes().to_vec(),
        deployed_at_block_number: block,
    }
}

#[test]
fn accounts_are_grouped_by_ascending_deployment_block() {
    let groups = group_by_deployment_block(vec![
        missing("c", 9),
        missing("a", 3),
        missing("d", 9),
        missing("b", 5),
    ]);
    let blocks: Vec<u32> = groups.keys().copied().collect();
    assert_eq!(blocks, vec![3, 5, 9]);
    let names: Vec<&str> = groups[&9].iter().map(|a| a.account_bech.as_str()).collect();
    assert_eq!(names, vec!["c", "d"]);
    assert_eq!(groups[&3][0].account_bech, "a");
    assert!(group_by_deployment_block(vec![]).is_empty());
}

#[test]
fn the_first_update_of_an_account_gives_its_code_commitment() {
    let updated = vec![
        UpdatedAccountCode { account_id: vec![1], code_commitment_hex: None },
        UpdatedAccountCode { account_id: vec![2], code_commitment_hex: Some("0xc2".to_string()) },
        UpdatedAccountCode { account_id: vec![2], code_commitment_hex: Some("0xother".to_string()) },
    ];
    assert_eq!(code_commitment_from_block(&updated, &[2]), Some("0xc2".to_string()));
    assert_eq!(code_commitment_from_block(&updated, &[1]), None);
    assert_eq!(code_commitment_from_block(&updated, &[3]), None);
}

#[test]
fn progress_is_reported_every_hundred_accounts() {
    assert!(should_report_progress(60, 40));
    assert!(!should_report_progress(60, 41));
    assert!(should_report_progress(0, 0));
}

#[test]
fn progress_counts_updated_and_skipped_accounts() {
    let mut p = BackfillProgress::new();
    assert_eq!((p.updated, p.skipped), (0, 0));
    p.record(true, true);
    p.record(true, false);
    p.record(false, false);
    p.record(true, true);
    assert_eq!(p.updated, 2);
    assert_eq!(p.skipped, 1);
}

fn deployed(bech: &str, id: u8, commitment: &str) -> UpdatedAccountData {
    UpdatedAccountData {
        account_id: vec![id],
        ..wallet(
            bech,
            Some(AccountPatchData {
                code: Some(AccountCodeData {
                    account_type: DatabaseMidenAccountType::RegularAccountUpdatableCode,
                    code: "code".to_string(),
                    code_size: 4,
                    procedure_roots: vec![],
                    commitment_hex: commitment.to_string(),
                    fungible_faucet: None,
                }),
                final_nonce: Some(1),
                updated_assets: vec![],
                removed_assets: vec![],
                values: vec![],
                maps: vec![],
            }),
        )
    }
}

#[test]
fn backfill_finds_what_the_account_rows_record() {
    let h = header();
    let private = UpdatedAccountData { account_id: vec![3], ..wallet("mtst1p", None) };
    let accounts = vec![deployed("mtst1a", 1, "0xc1"), private, deployed("mtst1b", 2, "0xc2")];
    let rows = account_rows(&h, &accounts).unwrap();
    let codes = updated_account_codes(&accounts);
    assert_eq!(codes.len(), 3);
    for (i, acc) in accounts.iter().enumerate() {
        let found = code_commitment_from_block(&codes, &acc.account_id);
        assert_eq!(found, rows.accounts[i].code_commitment);
    }
    assert_eq!(code_commitment_from_block(&codes, &[1]), Some("0xc1".to_string()));
    assert_eq!(code_commitment_from_block(&codes, &[3]), None);
    assert_eq!(code_commitment_from_block(&codes, &[9]), None);
}

#[test]
fn a_transaction_joins_the_update_of_its_account() {
    let h = header();
    let accounts = vec![wallet("mtst1acc", None)];
    let updates = account_rows(&h, &accounts).unwrap().updates;
    let txs = vec![TransactionData {
        id: vec![0x10],
        id_hex: "0x10".to_string(),
        account_bech: "mtst1acc".to_string(),
        initial_state_commitment: vec![0],
        final_state_commitment: vec![1],
        input_notes: vec![],
        output_notes: vec![],
    }];
    let rows = transaction_rows(&h, &txs).unwrap();
    assert_eq!(rows.transactions[0].account_update_id, updates[0].account_update_id);
    assert_eq!(rows.transactions[0].account_update_id, "mtst1acc_0xaabb");
}
