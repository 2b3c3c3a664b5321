use builder_relay::payload::{encode_tx_hex, request_body};

#[test]
fn hex_of_empty_tx_is_bare_prefix() {
    let tx: Vec<u8> = Vec::new();
    assert_eq!(encode_tx_hex(&tx), "0x");
}

#[test]
fn hex_covers_low_and_high_nibbles() {
    let tx: Vec<u8> = vec![0x00, 0x01, 0x9f, 0xff];
    assert_eq!(encode_tx_hex(&tx), "0x00019fff");
}

#[test]
fn request_body_exact() {
    let tx: Vec<u8> = vec![0xde, 0xad, 0xbe, 0xef];
    let body = request_body("eth_sendPrivateTransaction", &tx);
    assert_eq!(
        body,
        "{\"jsonrpc\":\"2.0\",\"method\":\"eth_sendPrivateTransaction\",\"params\":[{\"tx\":\"0xdeadbeef\"}],\"id\":1}"
    );
}

#[test]
fn request_body_is_valid_json_rpc() {
    let tx: Vec<u8> = vec![0x01, 0x02];
    let body = request_body("eth_sendPrivateRawTransaction", &tx);
    let v: serde_json::Value = serde_json::from_str(&body).unwrap();
    assert_eq!(v.get("jsonrpc").unwrap(), "2.0");
    assert_eq!(v.get("method").unwrap(), "eth_sendPrivateRawTransaction");
    assert_eq!(v.get("id").unwrap(), 1);
    let params = v.get("params").unwrap().as_array().unwrap();
    assert_eq!(params.len(), 1);
    assert_eq!(params[0].get("tx").unwrap(), "0x0102");
}

#[test]
fn same_tx_segment_for_every_builder() {
    let tx: Vec<u8> = vec![0xab, 0xcd];
    let b1 = request_body("eth_sendPrivateTransaction", &tx);
    let b2 = request_body("eth_sendPrivateRawTransaction", &tx);
    let expected = encode_tx_hex(&tx);
    assert!(b1.contains(&expected));
    assert!(b2.contains(&expected));
}
