use gblend::artifact::{starts_with_wasm_magic, validate_wasm_file};
use gblend::deploy::{
    needs_gas_price_lookup, prepare_deployment, DeployAction, DeployEvent, DeployStage,
    Deployment, DEFAULT_GAS_LIMIT,
};
use gblend::error::Error;
use gblend::network::{get_network_config, DeployArgs, NetworkConfig, NetworkType};
use gblend::report::{deployment_result, DeploymentStatus};
use gblend::tracker::{
    tracker_step, DeploymentReceipt, TrackerAction, TrackerEvent, TrackerSettings, TrackerState,
    DEFAULT_DEADLINE_MS, DEFAULT_POLL_INTERVAL_MS,
};
use gblend::wallet::{create_wallet, decode_private_key};

const KEY_ONE: &str = "0000000000000000000000000000000000000000000000000000000000000001";

fn args(local: bool, dev: bool, rpc: Option<&str>, chain_id: Option<u64>) -> DeployArgs {
    DeployArgs {
        private_key: KEY_ONE.to_string(),
        gas_limit: 1_000_000,
        gas_price: 1,
        confirmations: 0,
        wasm_file: "lib.wasm".to_string(),
        local,
        dev,
        rpc: rpc.map(|s| s.to_string()),
        chain_id,
    }
}

fn receipt(success: bool, gas_used: u64, block: u64) -> DeploymentReceipt {
    DeploymentReceipt {
        tx_hash: "0xabc".to_string(),
        success,
        contract_address: Some("0xdef".to_string()),
        gas_used: Some(gas_used),
        effective_gas_price: Some(7),
        block_number: Some(block),
        event_count: 2,
    }
}

fn settings(confirmations: u64, gas_limit: u64) -> TrackerSettings {
    TrackerSettings {
        confirmations,
        gas_limit,
        deadline_ms: DEFAULT_DEADLINE_MS,
        poll_interval_ms: DEFAULT_POLL_INTERVAL_MS,
    }
}

#[test]
fn magic_number_is_checked() {
    assert!(starts_with_wasm_magic(&[0x00, 0x61, 0x73, 0x6d]));
    assert!(starts_with_wasm_magic(&[0x00, 0x61, 0x73, 0x6d, 0x01]));
    assert!(!starts_with_wasm_magic(&[0x00, 0x61, 0x73]));
    assert!(!starts_with_wasm_magic(&[0x7f, 0x45, 0x4c, 0x46]));
    assert!(!starts_with_wasm_magic(&[]));
}

#[test]
fn missing_artifact_is_a_deployment_error() {
    let r = validate_wasm_file("nowhere.wasm", None);
    match r {
        Err(Error::Deployment(m)) => assert_eq!(m, "WASM file not found: nowhere.wasm"),
        other => panic!("unexpected {:?}", other),
    }
}

#[test]
fn artifact_without_magic_is_a_validation_error() {
    let r = validate_wasm_file("x.wasm", Some(vec![1, 2, 3, 4, 5]));
    assert!(matches!(r, Err(Error::Validation(_))));
    let r = validate_wasm_file("x.wasm", Some(vec![]));
    assert!(matches!(r, Err(Error::Validation(_))));
    let r = validate_wasm_file("x.wasm", Some(vec![0x00, 0x61, 0x73, 0x6d, 0xff]));
    assert_eq!(r.unwrap(), vec![0x00, 0x61, 0x73, 0x6d, 0xff]);
}

#[test]
fn bad_artifact_fails_before_other_stages() {
    // Both the selection and the key are wrong too; the artifact decides.
    let mut a = args(true, true, Some("http://x"), None);
    a.private_key = "zz".to_string();
    assert!(matches!(prepare_deployment(&a, None), Err(Error::Deployment(_))));
    assert!(matches!(
        prepare_deployment(&a, Some(vec![0xde, 0xad, 0xbe, 0xef])),
        Err(Error::Validation(_))
    ));
}

#[test]
fn local_preset_resolves() {
    let c = NetworkConfig::from_args(&args(true, false, None, None)).unwrap();
    assert_eq!(c.name, "local");
    assert_eq!(c.endpoint, "http://localhost:8545");
    assert_eq!(c.chain_id, 1337);
    assert_eq!(c.network_type, NetworkType::Local);
}

#[test]
fn dev_preset_resolves() {
    let c = NetworkConfig::from_args(&args(false, true, None, None)).unwrap();
    assert_eq!(c.name, "dev");
    assert_eq!(c.endpoint, "https://rpc.dev.gblend.xyz");
    assert_eq!(c.chain_id, 20993);
}

#[test]
fn custom_endpoint_resolves() {
    let c = NetworkConfig::from_args(&args(false, false, Some("http://node:8545"), Some(42)))
        .unwrap();
    assert_eq!(c.name, "Custom");
    assert_eq!(c.endpoint, "http://node:8545");
    assert_eq!(c.chain_id, 42);
    assert_eq!(c.network_type, NetworkType::Custom);
}

#[test]
fn conflicting_or_missing_selection_is_a_configuration_error() {
    let cases = [
        args(true, false, Some("http://node"), None),
        args(false, true, None, Some(5)),
        args(true, false, Some("http://node"), Some(5)),
        args(true, true, None, None),
        args(false, false, None, None),
        args(false, false, Some("http://node"), None),
        args(false, false, None, Some(5)),
    ];
    for a in cases.iter() {
        assert!(matches!(NetworkConfig::from_args(a), Err(Error::Config(_))));
    }
}

#[test]
fn presets_by_name() {
    assert_eq!(get_network_config("local").unwrap().chain_id, 1337);
    assert_eq!(get_network_config("dev").unwrap().chain_id, 20993);
    assert!(matches!(get_network_config("main"), Err(Error::Network(_))));
}

#[test]
fn key_text_is_decoded() {
    let bytes = decode_private_key(
        "0x00112233445566778899aabbccddeeffAABBCCDDEEFF00112233445566778899",
    )
    .unwrap();
    assert_eq!(bytes.len(), 32);
    assert_eq!(&bytes[..4], &[0x00, 0x11, 0x22, 0x33]);
    assert_eq!(&bytes[10..16], &[0xaa, 0xbb, 0xcc, 0xdd, 0xee, 0xff]);
    assert_eq!(&bytes[16..22], &[0xaa, 0xbb, 0xcc, 0xdd, 0xee, 0xff]);
}

#[test]
fn malformed_keys_are_rejected() {
    let bad = [
        "",
        "0x",
        "123",
        "0x0x0000000000000000000000000000000000000000000000000000000000000001",
        "0X0000000000000000000000000000000000000000000000000000000000000001",
        "g000000000000000000000000000000000000000000000000000000000000001",
        "00000000000000000000000000000000000000000000000000000000000000001",
        " 000000000000000000000000000000000000000000000000000000000000001",
    ];
    for k in bad.iter() {
        assert!(matches!(create_wallet(k, 1337), Err(Error::InvalidPrivateKey(_))), "{}", k);
    }
}

#[test]
fn valid_key_is_bound_to_chain() {
    let id = create_wallet(KEY_ONE, 1337).unwrap();
    assert_eq!(id.chain_id, 1337);
    let mut expected = vec![0u8; 32];
    expected[31] = 1;
    assert_eq!(id.secret, expected);
    let id = create_wallet(&format!("0x{}", KEY_ONE), 7).unwrap();
    assert_eq!(id.chain_id, 7);
}

#[test]
fn signing_library_rejects_out_of_range_secrets() {
    let zero = "0".repeat(64);
    assert!(matches!(create_wallet(&zero, 1337), Err(Error::InvalidPrivateKey(_))));
    let order = "fffffffffffffffffffffffffffffffebaaedce6af48a03bbfd25e8cd0364141";
    assert!(matches!(create_wallet(order, 1337), Err(Error::InvalidPrivateKey(_))));
    let below = "fffffffffffffffffffffffffffffffebaaedce6af48a03bbfd25e8cd0364140";
    assert!(create_wallet(below, 1337).is_ok());
}

#[test]
fn zero_gas_price_is_fetched_from_the_network() {
    assert!(needs_gas_price_lookup(0));
    assert!(!needs_gas_price_lookup(3));
    let (mut d, action) = Deployment::start(1337, vec![1, 2], 500, 0, 0, 1000, 100);
    assert!(matches!(action, DeployAction::FetchGasPrice));
    match d.step(DeployEvent::GasPrice(Ok(42))) {
        DeployAction::Submit { tx } => {
            assert_eq!(tx.gas_price, 42);
            assert_eq!(tx.chain_id, 1337);
            assert_eq!(tx.payload, vec![1, 2]);
            assert_eq!(tx.gas_limit, 500);
        }
        other => panic!("unexpected {:?}", other),
    }
}

#[test]
fn given_gas_price_is_used_without_a_query() {
    let (_, action) = Deployment::start(1337, vec![9], 500, 5, 0, 1000, 100);
    match action {
        DeployAction::Submit { tx } => assert_eq!(tx.gas_price, 5),
        other => panic!("unexpected {:?}", other),
    }
}

#[test]
fn failed_price_query_is_a_network_error() {
    let (mut d, _) = Deployment::start(1, vec![], 500, 0, 0, 1000, 100);
    assert!(matches!(d.step(DeployEvent::GasPrice(Err("down".to_string()))), DeployAction::Done));
    let net = get_network_config("local").unwrap();
    match deployment_result(&net, d) {
        Err(Error::Network(m)) => assert_eq!(m, "down"),
        other => panic!("unexpected {:?}", other),
    }
}

#[test]
fn rejected_submission_is_a_deployment_error() {
    let (mut d, _) = Deployment::start(1, vec![], 500, 3, 0, 1000, 100);
    d.step(DeployEvent::Submitted(Err("insufficient funds".to_string())));
    let net = get_network_config("local").unwrap();
    match deployment_result(&net, d) {
        Err(e) => assert_eq!(e.message(), "Deployment error: insufficient funds"),
        other => panic!("unexpected {:?}", other),
    }
}

#[test]
fn success_without_confirmations_needs_no_height_poll() {
    let s = settings(0, 100_000);
    let (state, action) = tracker_step(
        &s,
        TrackerState::Submitted,
        TrackerEvent::Receipt { receipt: Some(receipt(true, 21_000, 10)), elapsed_ms: 0 },
    );
    assert!(matches!(state, TrackerState::Success { .. }));
    assert_eq!(action, TrackerAction::Stop);
}

#[test]
fn revert_ends_at_once_with_gas_hint() {
    let s = settings(3, 50_000);
    let (state, action) = tracker_step(
        &s,
        TrackerState::Submitted,
        TrackerEvent::Receipt { receipt: Some(receipt(false, 50_000, 10)), elapsed_ms: 0 },
    );
    assert!(matches!(state, TrackerState::Reverted { gas_limit_reached: true, .. }));
    assert_eq!(action, TrackerAction::Stop);
    let (state, _) = tracker_step(
        &s,
        TrackerState::Submitted,
        TrackerEvent::Receipt { receipt: Some(receipt(false, 49_999, 10)), elapsed_ms: 0 },
    );
    assert!(matches!(state, TrackerState::Reverted { gas_limit_reached: false, .. }));
}

#[test]
fn confirmation_depth_is_awaited() {
    let s = settings(2, 100_000);
    let (state, action) = tracker_step(
        &s,
        TrackerState::Submitted,
        TrackerEvent::Receipt { receipt: Some(receipt(true, 21_000, 10)), elapsed_ms: 0 },
    );
    assert!(matches!(state, TrackerState::Included { block_number: 10, .. }));
    assert_eq!(action, TrackerAction::PollBlockHeight { delay_ms: 0 });
    let (state, action) =
        tracker_step(&s, state, TrackerEvent::BlockHeight { height: 11, elapsed_ms: 500 });
    assert!(matches!(state, TrackerState::Included { .. }));
    assert_eq!(action, TrackerAction::PollBlockHeight { delay_ms: 1000 });
    // A height below the including block counts as depth zero.
    let (state, _) =
        tracker_step(&s, state, TrackerEvent::BlockHeight { height: 3, elapsed_ms: 900 });
    assert!(matches!(state, TrackerState::Included { .. }));
    let (state, action) =
        tracker_step(&s, state, TrackerEvent::BlockHeight { height: 12, elapsed_ms: 1500 });
    assert!(matches!(state, TrackerState::Success { .. }));
    assert_eq!(action, TrackerAction::Stop);
}

#[test]
fn silent_endpoint_times_out_at_the_deadline() {
    let s = TrackerSettings {
        confirmations: 0,
        gas_limit: 1,
        deadline_ms: 2_500,
        poll_interval_ms: 1_000,
    };
    let mut state = TrackerState::Submitted;
    let mut elapsed = 0u64;
    loop {
        let (next, action) = tracker_step(
            &s,
            state,
            TrackerEvent::Receipt { receipt: None, elapsed_ms: elapsed },
        );
        state = next;
        match action {
            TrackerAction::PollReceipt { delay_ms } => {
                assert!(elapsed < 2_500);
                elapsed += delay_ms;
            }
            TrackerAction::Stop => break,
            other => panic!("unexpected {:?}", other),
        }
    }
    assert!(matches!(state, TrackerState::TimedOut));
    assert_eq!(elapsed, 3_000);
}

#[test]
fn timeout_is_reported_as_timeout_error() {
    let (mut d, _) = Deployment::start(1337, vec![], 10, 1, 0, 0, 1000);
    d.step(DeployEvent::Submitted(Ok("0xabc".to_string())));
    d.step(DeployEvent::Tracker(TrackerEvent::Receipt { receipt: None, elapsed_ms: 0 }));
    let net = get_network_config("local").unwrap();
    assert!(matches!(deployment_result(&net, d), Err(Error::Timeout(_))));
}

#[test]
fn end_to_end_local_deployment() {
    let mut a = args(true, false, None, None);
    a.gas_limit = 1_000_000;
    a.gas_price = 1;
    a.confirmations = 0;
    let artifact = vec![0x00, 0x61, 0x73, 0x6d, 0xff];
    let plan = prepare_deployment(&a, Some(artifact.clone())).unwrap();
    assert_eq!(plan.network.chain_id, 1337);
    assert_eq!(plan.identity.chain_id, 1337);

    let (mut d, mut action) = Deployment::start(
        plan.network.chain_id,
        plan.payload,
        plan.gas_limit,
        plan.gas_price,
        plan.confirmations,
        DEFAULT_DEADLINE_MS,
        DEFAULT_POLL_INTERVAL_MS,
    );
    let mut height_polls = 0;
    loop {
        let event = match action {
            DeployAction::FetchGasPrice => panic!("gas price was given"),
            DeployAction::Submit { tx } => {
                assert_eq!(tx.payload, artifact);
                assert_eq!(tx.gas_price, 1);
                assert_eq!(tx.gas_limit, 1_000_000);
                assert_eq!(tx.chain_id, 1337);
                DeployEvent::Submitted(Ok("0xfeed".to_string()))
            }
            DeployAction::Track(TrackerAction::PollReceipt { .. }) => {
                DeployEvent::Tracker(TrackerEvent::Receipt {
                    receipt: Some(DeploymentReceipt {
                        tx_hash: "0xfeed".to_string(),
                        success: true,
                        contract_address: Some("0x5fbd".to_string()),
                        gas_used: Some(21_000),
                        effective_gas_price: Some(1),
                        block_number: Some(10),
                        event_count: 0,
                    }),
                    elapsed_ms: 0,
                })
            }
            DeployAction::Track(TrackerAction::PollBlockHeight { .. }) => {
                height_polls += 1;
                DeployEvent::Tracker(TrackerEvent::BlockHeight { height: 10, elapsed_ms: 0 })
            }
            DeployAction::Track(TrackerAction::Stop) | DeployAction::Done => break,
        };
        action = d.step(event);
    }
    assert_eq!(height_polls, 0);
    assert!(matches!(d.stage, DeployStage::Tracking { .. }));
    let report = deployment_result(&plan.network, d).unwrap();
    assert_eq!(report.network_name, "local");
    assert_eq!(report.chain_id, 1337);
    assert_eq!(report.gas_used, 21_000);
    assert_eq!(report.status, DeploymentStatus::Success);
    assert_eq!(report.block_number, 10);
    assert_eq!(report.tx_hash, "0xfeed");
    assert_eq!(report.contract_address, Some("0x5fbd".to_string()));
    assert!(!report.gas_limit_reached);
    let lines = report.summary_lines();
    assert!(lines.contains(&"Status: success".to_string()));
    assert!(lines.contains(&"Network: local".to_string()));
    assert!(lines.contains(&"Chain ID: 1337".to_string()));
    assert!(lines.contains(&"Gas used: 21000".to_string()));
    assert!(!lines.iter().any(|l| l.contains("imeout") || l.contains("Gas limit")));
}

#[test]
fn report_lines_for_a_revert() {
    let (mut d, _) = Deployment::start(20993, vec![0], 21_000, 2, 0, 1000, 100);
    d.step(DeployEvent::Submitted(Ok("0x01".to_string())));
    d.step(DeployEvent::Tracker(TrackerEvent::Receipt {
        receipt: Some(receipt(false, 21_000, 4)),
        elapsed_ms: 10,
    }));
    let net = get_network_config("dev").unwrap();
    let lines = deployment_result(&net, d).unwrap().summary_lines();
    assert_eq!(
        lines,
        vec![
            "Status: reverted",
            "Network: dev",
            "Chain ID: 20993",
            "Contract address: 0xdef",
            "Transaction hash: 0xabc",
            "Gas limit: 21000",
            "Gas used: 21000",
            "Effective gas price: 7",
            "Block number: 4",
            "Events emitted: 2",
            "Gas limit reached, likely cause of the revert. Please increase the gas limit.",
        ]
    );
}

#[test]
fn reverted_deployment_is_reported_with_hint() {
    let (mut d, _) = Deployment::start(20993, vec![0], 21_000, 2, 5, 1000, 100);
    d.step(DeployEvent::Submitted(Ok("0x01".to_string())));
    d.step(DeployEvent::Tracker(TrackerEvent::Receipt {
        receipt: Some(receipt(false, 21_000, 4)),
        elapsed_ms: 10,
    }));
    let net = get_network_config("dev").unwrap();
    let report = deployment_result(&net, d).unwrap();
    assert_eq!(report.status, DeploymentStatus::Reverted);
    assert!(report.gas_limit_reached);
    assert_eq!(report.gas_used, 21_000);
    assert_eq!(report.gas_limit, 21_000);
    assert_eq!(report.block_number, 4);
    assert_eq!(report.effective_gas_price, 7);
    assert_eq!(report.event_count, 2);
    assert_eq!(report.network_name, "dev");
}

#[test]
fn default_gas_limit() {
    assert_eq!(DEFAULT_GAS_LIMIT, 30_000_000);
}

#[test]
fn error_messages_name_the_stage() {
    assert_eq!(Error::Config("x".to_string()).message(), "Config error: x");
    assert_eq!(Error::Timeout("late".to_string()).message(), "Timeout: late");
    assert_eq!(Error::Network("n".to_string()).detail(), "n");
}
