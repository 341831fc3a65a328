use relayer_order_api::meta::Meta;
use std::time::SystemTime;

#[test]
fn test_rpc_server_metadata_extraction() {
    // Create mock request headers
    let mut headers = std::collections::HashMap::new();
    headers.insert(
        String::from("content-type"),
        Some("application/json".to_string()),
    );
    headers.insert(String::from("relayer"), Some("test-relayer".to_string()));

    // Create mock metadata
    let meta = Meta {
        metadata: {
            let mut table = relayer_order_api::table::KeyedTable::new();
            table.insert(
                String::from("CONTENT_TYPE"),
                Some("application/json".to_string()),
            );
            table.insert(String::from("Relayer"), Some("test-relayer".to_string()));
            table.insert(
                String::from("request_server_time"),
                Some(
                    SystemTime::now()
                        .duration_since(SystemTime::UNIX_EPOCH)
                        .unwrap()
                        .as_micros()
                        .to_string(),
                ),
            );
            table
        },
    };

    // Create mock RPC request
    let _request = jsonrpc_core::Request::Single(jsonrpc_core::Call::MethodCall(
        jsonrpc_core::MethodCall {
            jsonrpc: Some(jsonrpc_core::Version::V2),
            method: "CreateTraderOrder".to_string(),
            params: jsonrpc_core::Params::None,
            id: jsonrpc_core::Id::Num(1),
        },
    ));

    // Verify metadata extraction
    assert!(meta.metadata.contains_key("CONTENT_TYPE"));
    assert!(meta.metadata.contains_key("Relayer"));
    assert!(meta.metadata.contains_key("request_server_time"));

    // Verify timestamp is valid
    let timestamp = meta.metadata.get("request_server_time").unwrap();
    assert!(timestamp.is_some());
    assert!(timestamp.as_ref().unwrap().parse::<u128>().is_ok());
}

#[test]
fn meta_from_headers_records_the_three_entries() {
    let meta = Meta::from_headers(
        Some("application/json".to_string()),
        None,
        1_700_000_000_123_456,
    );
    assert_eq!(
        meta.metadata.get("CONTENT_TYPE"),
        Some(&Some("application/json".to_string()))
    );
    assert_eq!(meta.metadata.get("Relayer"), Some(&None));
    assert_eq!(
        meta.metadata.get("request_server_time"),
        Some(&Some("1700000000123456".to_string()))
    );
    assert_eq!(meta.metadata.get("other"), None);
    let t = meta.metadata.get("request_server_time").unwrap().clone().unwrap();
    assert_eq!(t.parse::<u128>().unwrap(), 1_700_000_000_123_456);
}

#[test]
fn meta_table_insert_replaces() {
    let mut meta = Meta::new();
    assert!(!meta.metadata.contains_key("Relayer"));
    meta.metadata.insert("Relayer".to_string(), Some("a".to_string()));
    meta.metadata.insert("Relayer".to_string(), Some("b".to_string()));
    assert_eq!(meta.metadata.get("Relayer"), Some(&Some("b".to_string())));
}
