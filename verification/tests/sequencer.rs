use sequencer::app::{AppHashMode, ExecutionRequest, StarknetApp};
use sequencer::client::tx_search_key;
use sequencer::height::{decode_height, HeightLedger};
use sequencer::transaction::{Transaction, TransactionType};
use sha2::Digest;

fn fresh_app() -> StarknetApp {
    let (ledger, _) = HeightLedger::read_or_create(None).unwrap();
    StarknetApp::new(ledger)
}

fn invoke_tx(function: &str) -> Transaction {
    Transaction::with_type(TransactionType::Invoke {
        address: "0xabc".to_string(),
        abi: "abi.json".to_string(),
        function: function.to_string(),
        inputs: None,
    })
    .unwrap()
}

#[test]
fn same_delivery_order_gives_same_app_hash() {
    let mut a = fresh_app();
    let mut b = fresh_app();
    for f in ["one", "two", "three"] {
        let tx = invoke_tx(f);
        assert_eq!(a.deliver_tx(&tx).response.code, 0);
        assert_eq!(b.deliver_tx(&tx).response.code, 0);
    }
    assert_eq!(
        a.commit().response.app_hash,
        b.commit().response.app_hash
    );
}

#[test]
fn different_delivery_order_gives_different_app_hash() {
    let first = invoke_tx("one");
    let second = invoke_tx("two");
    let mut a = fresh_app();
    let mut b = fresh_app();
    a.deliver_tx(&first);
    a.deliver_tx(&second);
    b.deliver_tx(&second);
    b.deliver_tx(&first);
    assert_ne!(
        a.commit().response.app_hash,
        b.commit().response.app_hash
    );
}

#[test]
fn app_hash_is_the_digest_of_delivered_hashes() {
    let first = invoke_tx("one");
    let second = invoke_tx("two");
    let mut app = fresh_app();
    app.deliver_tx(&first);
    app.deliver_tx(&second);
    let mut expected = sha2::Sha256::new();
    expected.update(first.transaction_hash.as_bytes());
    expected.update(second.transaction_hash.as_bytes());
    assert_eq!(
        app.commit().response.app_hash,
        expected.finalize().to_vec()
    );
}

#[test]
fn commit_twice_reports_the_same_running_digest() {
    let mut app = fresh_app();
    app.deliver_tx(&invoke_tx("one"));
    let first = app.commit();
    let second = app.commit();
    assert_eq!(first.response.app_hash, second.response.app_hash);
    assert_eq!(second.height, first.height + 1);
    assert_eq!(first.response.retain_height, 0);
}

#[test]
fn per_block_mode_resets_the_accumulator_at_commit() {
    let (ledger, _) = HeightLedger::read_or_create(None).unwrap();
    let mut app = StarknetApp::with_mode(ledger, AppHashMode::PerBlock);
    app.deliver_tx(&invoke_tx("one"));
    let first = app.commit();
    let second = app.commit();
    assert_ne!(first.response.app_hash, second.response.app_hash);
    // After the reset, the app-hash is the digest of an empty block.
    assert_eq!(
        second.response.app_hash,
        sha2::Sha256::new().finalize().to_vec()
    );
}

#[test]
fn commit_advances_and_persists_the_height() {
    let mut app = fresh_app();
    let outcome = app.commit();
    assert_eq!(outcome.height, 1);
    assert_eq!(decode_height(&outcome.persist), Some(1));
    assert_eq!(app.info().last_block_height, 1);
}

#[test]
fn invalid_delivery_changes_nothing() {
    let mut app = fresh_app();
    let baseline = app.current_app_hash();
    let mut corrupted = invoke_tx("one");
    corrupted.transaction_hash = "0xdead".to_string();
    let outcome = app.deliver_tx(&corrupted);
    assert_eq!(outcome.response.code, 1);
    assert_eq!(
        outcome.response.log,
        "Error delivering transaction. Integrity check failed."
    );
    assert_eq!(outcome.response.info, outcome.response.log);
    assert!(outcome.request.is_none());
    assert!(outcome.response.events.is_empty());
    assert_eq!(app.current_app_hash(), baseline);
}

#[test]
fn underivable_delivery_reports_the_hashing_failure() {
    let mut app = fresh_app();
    let outcome = app.deliver_tx(&Transaction {
        id: "x".to_string(),
        transaction_hash: "0x0".to_string(),
        transaction_type: TransactionType::Declare {
            program: "not an artifact".to_string(),
        },
    });
    assert_eq!(outcome.response.code, 1);
    assert_eq!(
        outcome.response.log,
        "Error delivering transaction: hash derivation failed."
    );
}

#[test]
fn valid_delivery_is_indexed_under_its_hash() {
    let mut app = fresh_app();
    let tx = invoke_tx("main");
    let outcome = app.deliver_tx(&tx);
    assert_eq!(outcome.response.code, 0);
    assert_eq!(outcome.response.data, tx.transaction_hash);
    let events = &outcome.response.events;
    assert_eq!(events.len(), 1);
    assert_eq!(events[0].kind, "app");
    assert_eq!(events[0].attributes.len(), 1);
    assert_eq!(events[0].attributes[0].key, "tx_id");
    assert_eq!(events[0].attributes[0].value, tx.transaction_hash);
    assert!(events[0].attributes[0].index);
    assert_eq!(tx_search_key(), "app.tx_id");
}

#[test]
fn deliveries_are_routed_to_the_execution_engine() {
    let mut app = fresh_app();
    let deploy = Transaction::with_type(TransactionType::DeployAccount {
        class_hash: "0x1".to_string(),
        salt: 1111,
        inputs: None,
    })
    .unwrap();
    match app.deliver_tx(&deploy).request {
        Some(ExecutionRequest::DeployContract {
            address,
            class_hash,
        }) => {
            assert_eq!(address, deploy.transaction_hash);
            assert_eq!(class_hash, "0x1");
        }
        other => panic!("unexpected request: {other:?}"),
    }
    let invoke = invoke_tx("main");
    match app.deliver_tx(&invoke).request {
        Some(ExecutionRequest::InvokeEntryPoint {
            address,
            abi,
            function,
            inputs,
        }) => {
            assert_eq!(address, "0xabc");
            assert_eq!(abi, "abi.json");
            assert_eq!(function, "main");
            assert_eq!(inputs, None);
        }
        other => panic!("unexpected request: {other:?}"),
    }
}

#[test]
fn block_counters_reset_at_begin_block() {
    let mut app = fresh_app();
    assert_eq!(app.begin_block().transactions, 0);
    app.deliver_tx(&invoke_tx("one"));
    app.deliver_tx(&invoke_tx("two"));
    let mut corrupted = invoke_tx("three");
    corrupted.transaction_hash = "0xdead".to_string();
    app.deliver_tx(&corrupted);
    assert_eq!(app.end_block().transactions, 3);
    assert_eq!(app.begin_block().transactions, 3);
    assert_eq!(app.end_block().transactions, 0);
}

#[test]
fn info_reports_identity_and_height() {
    let app = fresh_app();
    let info = app.info();
    assert_eq!(info.data, "cairo-app");
    assert_eq!(info.version, "0.1.0");
    assert_eq!(info.app_version, 1);
    assert_eq!(info.last_block_height, 0);
    assert!(info.last_block_app_hash.is_empty());
}

#[test]
fn query_is_an_explicit_failure() {
    let app = fresh_app();
    let response = app.query(&vec![1, 2, 3]);
    assert_eq!(response.code, 1);
    assert_eq!(
        response.log,
        "Error running query: Query hook needs implementation"
    );
    assert_eq!(response.info, response.log);
}

#[test]
fn mempool_gate_classifies_without_integrity_check() {
    let app = fresh_app();
    let response = app.check_tx(&invoke_tx("main"));
    assert_eq!(response.code, 0);
    assert_eq!(response.log, "Received invoke transaction");
    let declare = Transaction {
        id: "x".to_string(),
        transaction_hash: "0x0".to_string(),
        transaction_type: TransactionType::Declare {
            program: "not an artifact".to_string(),
        },
    };
    let response = app.check_tx(&declare);
    assert_eq!(response.code, 0);
    assert_eq!(response.log, "Received declare transaction");
}

#[test]
fn proposals_respect_the_engine_budget() {
    let app = fresh_app();
    let txs: Vec<Vec<u8>> = vec![vec![0; 100], vec![0; 50], vec![0; 30], vec![0; 20]];
    let kept = app.prepare_proposal(txs, 120);
    assert_eq!(kept.len(), 1);
    assert_eq!(kept[0].len(), 100);
    assert!(app.process_proposal());
}
