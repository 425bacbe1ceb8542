use midenscan_indexer::cli::{
    parse_command, usage_message, Command, BACKFILL_FAILURE_EXIT_CODE, USAGE_EXIT_CODE,
};
use midenscan_indexer::config::{
    build_config, network_from_name, parse_http_port, parse_miden_network, parse_u16,
    ConfigError, MidenNetwork, DEFAULT_HTTP_PORT,
};
use midenscan_indexer::http::health::{component_status, health_response, ComponentStatus};
use midenscan_indexer::http::metrics::{metrics_response, MetricsBody, METRICS_CONTENT_TYPE};
use midenscan_indexer::indexer::manager::{
    indexed_ref, next_block_to_index, rpc_failure_log, LogLevel, RETRY_DELAY_MS,
};
use midenscan_indexer::metrics::collector::{block_gauge_value, network_label, NETWORK_LABEL};
use midenscan_indexer::metrics::latest_block::{latest_block_number, POLL_INTERVAL_SECS};
use midenscan_indexer::rpc::client::{Rpc, RPC_TIMEOUT_SECS};
use midenscan_indexer::rpc::error::RpcError;
use midenscan_indexer::utils::internal_time::get_internal_time;

fn some(s: &str) -> Option<String> {
    Some(s.to_string())
}

#[test]
fn internal_time_concatenates_three_ten_digit_fields() {
    assert_eq!(get_internal_time(1, 2, 3), 100_000_000_020_000_000_003);
    assert_eq!(get_internal_time(0, 0, 0), 0);
    assert_eq!(
        get_internal_time(u32::MAX, u32::MAX, u32::MAX),
        429_496_729_542_949_672_954_294_967_295
    );
}

#[test]
fn internal_time_orders_block_first_then_the_values() {
    assert!(get_internal_time(1, 0, 0) > get_internal_time(0, u32::MAX, u32::MAX));
    assert!(get_internal_time(5, 2, 0) > get_internal_time(5, 1, u32::MAX));
    assert!(get_internal_time(5, 1, 1) > get_internal_time(5, 1, 0));
    assert_ne!(get_internal_time(1, 2, 3), get_internal_time(1, 3, 2));
}

#[test]
fn network_names_are_compared_after_lowercasing() {
    assert_eq!(parse_miden_network("mainnet"), Some(MidenNetwork::Mainnet));
    assert_eq!(parse_miden_network("TestNet"), Some(MidenNetwork::Testnet));
    assert_eq!(parse_miden_network("DEVNET"), Some(MidenNetwork::Devnet));
    assert_eq!(parse_miden_network("localnet"), None);
    assert_eq!(parse_miden_network(" mainnet"), None);
    assert_eq!(network_from_name("Mainnet"), None);
    assert_eq!(network_from_name("devnet"), Some(MidenNetwork::Devnet));
}

#[test]
fn ports_parse_like_u16() {
    assert_eq!(parse_u16("80"), Some(80));
    assert_eq!(parse_u16("+80"), Some(80));
    assert_eq!(parse_u16("0065535"), Some(65535));
    assert_eq!(parse_u16("65536"), None);
    assert_eq!(parse_u16("-1"), None);
    assert_eq!(parse_u16(""), None);
    assert_eq!(parse_u16("+"), None);
    assert_eq!(parse_u16("8 0"), None);
    assert_eq!(parse_http_port(some("3000")), 3000);
    assert_eq!(parse_http_port(some("99999")), 8080);
    assert_eq!(parse_http_port(some("abc")), DEFAULT_HTTP_PORT);
    assert_eq!(parse_http_port(None), 8080);
}

#[test]
fn config_is_built_from_the_settings() {
    let c = build_config(some("postgres://db"), some("http://rpc"), some("Testnet"), some("9000"))
        .unwrap();
    assert_eq!(c.postgres_url, "postgres://db");
    assert_eq!(c.rpc_url, "http://rpc");
    assert_eq!(c.miden_network, MidenNetwork::Testnet);
    assert_eq!(c.http_port, 9000);
    let d = build_config(some("p"), some("r"), some("devnet"), None).unwrap();
    assert_eq!(d.http_port, 8080);
}

#[test]
fn config_errors_name_the_first_missing_setting() {
    let e = build_config(None, None, None, None).unwrap_err();
    assert!(matches!(e, ConfigError::MissingPostgresUrl));
    assert_eq!(e.message(), "POSTGRES_URL must be set");
    let e = build_config(some("p"), None, some("mainnet"), None).unwrap_err();
    assert_eq!(e.message(), "RPC_URL must be set");
    let e = build_config(some("p"), some("r"), None, None).unwrap_err();
    assert_eq!(e.message(), "MIDEN_NETWORK must be set");
    let e = build_config(some("p"), some("r"), some("LocalNet"), None).unwrap_err();
    assert!(matches!(&e, ConfigError::UnknownMidenNetwork(got) if got == "localnet"));
    assert_eq!(
        e.message(),
        "MIDEN_NETWORK must be `mainnet`, `testnet`, or `devnet` (got `localnet`)"
    );
}

#[test]
fn health_is_ok_only_when_both_dependencies_are() {
    let ok = || ComponentStatus { ok: true, error: None };
    let (code, body) = health_response(ok(), ok());
    assert_eq!(code, 200);
    assert_eq!(body.status, "ok");
    let (code, body) = health_response(ok(), component_status(Err("rpc connect timeout".to_string())));
    assert_eq!(code, 503);
    assert_eq!(body.status, "degraded");
    assert!(body.db.ok);
    assert!(!body.rpc.ok);
    assert_eq!(body.rpc.error, Some("rpc connect timeout".to_string()));
    let (code, _) = health_response(component_status(Err("x".to_string())), ok());
    assert_eq!(code, 503);
    let s = component_status(Ok(()));
    assert!(s.ok);
    assert_eq!(s.error, None);
}

#[test]
fn rpc_errors_have_their_messages() {
    assert_eq!(RpcError::Timeout("get_status").message(), "timeout: get_status");
    assert_eq!(RpcError::NotFound(42).message(), "block not found: 42");
    assert_eq!(RpcError::Unknown("boom".to_string()).message(), "unknown error: boom");
    assert!(RpcError::NotFound(1).is_not_found());
    assert!(!RpcError::Timeout("x").is_not_found());
    assert_eq!(Rpc::new("http://node:57291").rpc_url, "http://node:57291");
    assert_eq!(RPC_TIMEOUT_SECS, 20);
}

#[test]
fn the_next_block_follows_the_recorded_one() {
    assert_eq!(next_block_to_index(-1), 0);
    assert_eq!(next_block_to_index(0), 1);
    assert_eq!(next_block_to_index(41), 42);
    assert_eq!(next_block_to_index(i32::MAX - 1), i32::MAX as u32);
    assert_eq!(next_block_to_index(-2), u32::MAX);
    assert_eq!(next_block_to_index(i32::MIN), 0x8000_0001);
    for n in [0u32, 1, 41, 0x7fff_fffe, 0x8000_0000, u32::MAX] {
        let r = indexed_ref(vec![1, 2], n);
        assert_eq!(r.block_commitment, vec![1, 2]);
        assert_eq!(next_block_to_index(r.block_number), n.wrapping_add(1));
    }
    assert_eq!(indexed_ref(vec![], 0x8000_0000).block_number, i32::MIN);
    assert_eq!(indexed_ref(vec![], u32::MAX).block_number, -1);
    assert_eq!(RETRY_DELAY_MS, 500);
}

#[test]
fn a_missing_block_is_waited_for_and_other_rpc_errors_are_reported() {
    let (level, msg) = rpc_failure_log(&RpcError::NotFound(7));
    assert_eq!(level, LogLevel::Info);
    assert_eq!(msg, "Waiting for next block: 7");
    let (level, msg) = rpc_failure_log(&RpcError::Timeout("get_block_by_number"));
    assert_eq!(level, LogLevel::Error);
    assert_eq!(msg, "RPC Error: timeout: get_block_by_number");
}

#[test]
fn metric_labels_and_values() {
    assert_eq!(NETWORK_LABEL, "network");
    assert_eq!(network_label(MidenNetwork::Mainnet), "mainnet");
    assert_eq!(network_label(MidenNetwork::Testnet), "testnet");
    assert_eq!(network_label(MidenNetwork::Devnet), "devnet");
    assert_eq!(block_gauge_value(u32::MAX), 4_294_967_295i64);
    assert_eq!(POLL_INTERVAL_SECS, 1);
}

#[test]
fn the_latest_block_comes_from_the_store_status() {
    assert_eq!(latest_block_number(Ok(Some(99))), Ok(99));
    assert_eq!(
        latest_block_number(Ok(None)),
        Err("RPC store status error: missing store".to_string())
    );
    assert_eq!(
        latest_block_number(Err("Could not get RPC status: down".to_string())),
        Err("Could not get latest block number: Could not get RPC status: down".to_string())
    );
}

#[test]
fn the_first_argument_selects_the_command() {
    assert!(matches!(parse_command(None), Command::Index));
    assert!(matches!(
        parse_command(some("backfill-code-commitments")),
        Command::BackfillCodeCommitments
    ));
    assert!(matches!(parse_command(some("serve")), Command::Unknown(c) if c == "serve"));
    assert_eq!(
        usage_message("serve"),
        "unknown command `serve`; usage: midenscan-indexer [backfill-code-commitments]"
    );
    assert_eq!(USAGE_EXIT_CODE, 2);
    assert_eq!(BACKFILL_FAILURE_EXIT_CODE, 1);
}

#[test]
fn metrics_are_served_as_text_or_reported_as_an_error() {
    let ok = metrics_response(Ok(b"# HELP x\n".to_vec()));
    assert_eq!(ok.status, 200);
    assert_eq!(ok.content_type, Some("text/plain; version=0.0.4; charset=utf-8"));
    assert_eq!(ok.content_type, Some(METRICS_CONTENT_TYPE));
    assert!(matches!(ok.body, MetricsBody::Encoded(ref b) if b == b"# HELP x\n"));
    let err = metrics_response(Err("bad label".to_string()));
    assert_eq!(err.status, 500);
    assert_eq!(err.content_type, None);
    assert!(matches!(err.body, MetricsBody::Failure(ref m) if m == "metrics encode error: bad label"));
}
