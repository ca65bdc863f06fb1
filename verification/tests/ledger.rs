use sequencer::height::{decode_height, encode_height, HeightLedger};
use sequencer::hexstr::encode_hex;

#[test]
fn hex_rendering_matches_hex_crate() {
    let bytes: Vec<u8> = vec![0x00, 0xff, 0x1a, 0x0b];
    assert_eq!(encode_hex(&bytes), "00ff1a0b");
    assert_eq!(encode_hex(&bytes), hex::encode(&bytes));
    assert_eq!(encode_hex(&Vec::new()), "");
}

#[test]
fn height_codec_round_trips() {
    for h in [0i64, 1, -1, 7, 1_000_000, i64::MAX, i64::MIN] {
        let bytes = encode_height(h);
        assert_eq!(bytes.len(), 8);
        assert_eq!(decode_height(&bytes), Some(h));
    }
}

#[test]
fn height_layout_matches_persisted_format() {
    for h in [0i64, 42, -3, i64::MAX] {
        assert_eq!(encode_height(h), bincode::serialize(&h).unwrap());
    }
}

#[test]
fn missing_record_starts_at_zero() {
    let (ledger, created) = HeightLedger::read_or_create(None).unwrap();
    assert_eq!(ledger.current(), 0);
    assert_eq!(created, Some(encode_height(0)));
}

#[test]
fn stored_record_is_adopted() {
    let (ledger, created) = HeightLedger::read_or_create(Some(encode_height(5))).unwrap();
    assert_eq!(ledger.current(), 5);
    assert_eq!(created, None);
}

#[test]
fn corrupt_record_is_refused() {
    assert!(HeightLedger::read_or_create(Some(vec![1, 2, 3])).is_err());
    assert!(HeightLedger::read_or_create(Some(vec![0; 9])).is_err());
}

#[test]
fn increments_from_missing_record_count_up() {
    let n = 7;
    let (mut ledger, created) = HeightLedger::read_or_create(None).unwrap();
    let mut persisted = created.unwrap();
    for expected in 1..=n {
        let (height, bytes) = ledger.increment();
        assert_eq!(height, expected);
        persisted = bytes;
    }
    let (reread, _) = HeightLedger::read_or_create(Some(persisted)).unwrap();
    assert_eq!(reread.current(), n);
}

#[test]
fn interrupted_write_recovers_prior_height() {
    let (mut ledger, _) = HeightLedger::read_or_create(None).unwrap();
    let mut durable = encode_height(0);
    for _ in 0..3 {
        let (_, bytes) = ledger.increment();
        durable = bytes;
    }
    // A later write never completed: the store still holds the bytes of
    // height 3, and restarting from them recovers exactly that height.
    let _ = ledger.increment();
    let (recovered, _) = HeightLedger::read_or_create(Some(durable)).unwrap();
    assert_eq!(recovered.current(), 3);
}
