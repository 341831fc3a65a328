use relayer_order_api::config::{broker_address, thread_count, RelayerConfig};
use relayer_order_api::decimal::{decimal_string, parse_unsigned_str};
use relayer_order_api::hex_codec::{decode_byte_rec, HexError};
use relayer_order_api::json::failed_request_payload;
use relayer_order_api::kafka_topic::kafka_new_topic_args;
use relayer_order_api::rpc_types::{ByteRec, RequestResponse};
use relayer_order_api::types::PositionType;
use relayer_order_api::utils::{get_localdb_string, positionside, set_localdb_string, LocalDbString};

fn rec(s: &str) -> ByteRec {
    ByteRec { data: s.to_string() }
}

#[test]
fn hex_decodes_pairs_of_digits() {
    assert_eq!(decode_byte_rec(&rec("0a1B")), Ok(vec![0x0a, 0x1b]));
    assert_eq!(decode_byte_rec(&rec("")), Ok(vec![]));
    assert_eq!(decode_byte_rec(&rec("ff00Ff")), Ok(vec![0xff, 0x00, 0xff]));
}

#[test]
fn hex_rejects_odd_length() {
    assert_eq!(decode_byte_rec(&rec("abc")), Err(HexError::OddLength));
    // 'é' is two UTF-8 bytes, so "é0" has three bytes.
    assert_eq!(decode_byte_rec(&rec("é0")), Err(HexError::OddLength));
}

#[test]
fn hex_reports_first_bad_byte() {
    assert_eq!(
        decode_byte_rec(&rec("0g")),
        Err(HexError::InvalidHexCharacter { c: 'g', index: 1 })
    );
    assert_eq!(
        decode_byte_rec(&rec("zz0g")),
        Err(HexError::InvalidHexCharacter { c: 'z', index: 0 })
    );
    // The first byte of 'é' (0xc3) is reported, read as a char.
    assert_eq!(
        decode_byte_rec(&rec("é")),
        Err(HexError::InvalidHexCharacter { c: '\u{c3}', index: 0 })
    );
}

#[test]
fn decimal_text_of_numbers() {
    assert_eq!(decimal_string(0), "0");
    assert_eq!(decimal_string(7), "7");
    assert_eq!(decimal_string(10), "10");
    assert_eq!(decimal_string(1_700_000_000_123_456), "1700000000123456");
    assert_eq!(decimal_string(u128::MAX), u128::MAX.to_string());
}

#[test]
fn unsigned_text_reads_like_std() {
    let max = usize::MAX as u128;
    for text in ["42", "+42", "", "+", "-1", "4a", "007", " 1", "18446744073709551615", "18446744073709551616"] {
        let expected = text.parse::<u64>().ok().map(|v| v as u128);
        assert_eq!(parse_unsigned_str(text, u64::MAX as u128), expected, "text {:?}", text);
    }
    assert_eq!(parse_unsigned_str("42", max), Some(42));
    assert_eq!(parse_unsigned_str("256", 255), None);
    assert_eq!(parse_unsigned_str("255", 255), Some(255));
}

#[test]
fn decimal_text_reads_back() {
    for n in [0u128, 9, 10, 99, 123_456_789, u128::MAX] {
        assert_eq!(parse_unsigned_str(&decimal_string(n), u128::MAX), Some(n));
    }
}

#[test]
fn config_defaults_apply_where_unset() {
    let c = RelayerConfig::from_env_values(None, None, None, None, None);
    assert_eq!(c.relayer_version, "0.1.0");
    assert_eq!(c.snapshot_version, "1.000");
    assert_eq!(c.rpc_queue_mode, "DIRECT");
    assert_eq!(c.rpc_server_socketaddr, "0.0.0.0:3032");
    assert_eq!(c.rpc_server_thread, 2);
}

#[test]
fn config_takes_given_values() {
    let c = RelayerConfig::from_env_values(
        Some("1.0.0".to_string()),
        Some("2.5".to_string()),
        Some("KAFKA".to_string()),
        Some("127.0.0.1:9000".to_string()),
        Some("8".to_string()),
    );
    assert_eq!(c.relayer_version, "1.0.0");
    assert_eq!(c.snapshot_version, "2.5");
    assert_eq!(c.rpc_queue_mode, "KAFKA");
    assert_eq!(c.rpc_server_socketaddr, "127.0.0.1:9000");
    assert_eq!(c.rpc_server_thread, 8);
}

#[test]
fn thread_count_falls_back_on_bad_text() {
    assert_eq!(thread_count(Some("abc".to_string())), 2);
    assert_eq!(thread_count(Some("".to_string())), 2);
    assert_eq!(thread_count(Some("+3".to_string())), 3);
    assert_eq!(thread_count(Some("-3".to_string())), 2);
    assert_eq!(thread_count(None), 2);
}

#[test]
fn broker_defaults_to_localhost() {
    assert_eq!(broker_address(None), "localhost:9092");
    assert_eq!(broker_address(Some("kafka:9092".to_string())), "kafka:9092");
}

#[test]
fn localdb_read_after_write() {
    let mut db = LocalDbString::new();
    set_localdb_string(&mut db, "a", "one".to_string());
    set_localdb_string(&mut db, "b", "two".to_string());
    assert_eq!(get_localdb_string(&db, "a"), "one");
    assert_eq!(get_localdb_string(&db, "b"), "two");
    set_localdb_string(&mut db, "a", "three".to_string());
    assert_eq!(get_localdb_string(&db, "a"), "three");
    assert_eq!(get_localdb_string(&db, "b"), "two");
    assert!(!db.table.contains_key("c"));
}

#[test]
fn failed_payload_is_json_string() {
    let plain = failed_request_payload(&"00ff".to_string()).unwrap();
    assert_eq!(plain, b"\"00ff\"".to_vec());
    let escaped = failed_request_payload(&"a\"b\\c\n\u{1}é".to_string()).unwrap();
    assert_eq!(escaped, "\"a\\\"b\\\\c\\n\\u0001é\"".as_bytes().to_vec());
    assert_eq!(escaped, serde_json::to_vec("a\"b\\c\n\u{1}é").unwrap());
}

#[test]
fn kafka_topic_command() {
    assert_eq!(
        kafka_new_topic_args("prices"),
        vec![
            "exec",
            "-it",
            "zookeeper",
            "sh",
            "-c",
            "cd usr/bin && kafka-topics --topic prices --create --zookeeper zookeeper:2181 --partitions 1 --replication-factor 1",
            "exit",
        ]
    );
}

#[test]
fn position_side_signs() {
    assert_eq!(positionside(&PositionType::LONG), -1);
    assert_eq!(positionside(&PositionType::SHORT), 1);
}

#[test]
fn request_response_keeps_fields() {
    let r = RequestResponse::new("Order request submitted successfully".to_string(), "acc1".to_string());
    assert_eq!(r.msg, "Order request submitted successfully");
    assert_eq!(r.id_key, "acc1");
}
