use normal_oracle::abi::abi_encode;
use normal_oracle::contract::NormalOracle;
use normal_oracle::errors::NormalOracleError;
use normal_oracle::types::{ExecutedEvent, GasToken};

#[test]
fn executing_a_message_stores_what_it_encodes() {
    let mut oracle = NormalOracle::new();
    let payload = abi_encode(&b"price update".to_vec());
    let event = oracle
        .__execute("ethereum".to_string(), "id-1".to_string(), "0xabc".to_string(), payload.clone())
        .unwrap();
    assert_eq!(
        event,
        ExecutedEvent {
            source_chain: "ethereum".to_string(),
            message_id: "id-1".to_string(),
            source_address: "0xabc".to_string(),
            payload,
        }
    );
    assert_eq!(oracle.received_message(), b"price update".to_vec());
}

#[test]
fn a_malformed_payload_is_refused_and_nothing_stored() {
    let mut oracle = NormalOracle::new();
    oracle.received_message = Some(b"earlier".to_vec());
    let r = oracle.__execute("ethereum".to_string(), "id-2".to_string(), "0xabc".to_string(), vec![1, 2, 3]);
    assert_eq!(r, Err(NormalOracleError::FailedDecoding));
    assert_eq!(oracle.received_message(), b"earlier".to_vec());
}

#[test]
fn a_sent_message_is_received_unchanged() {
    let mut sender = NormalOracle::new();
    sender.gateway = Some("GATEWAY".to_string());
    sender.gas_service = Some("GAS".to_string());
    let token = GasToken { address: "TOKEN".to_string(), amount: 1_000 };
    let out = sender.send("avalanche".to_string(), "0xdef".to_string(), &b"hello".to_vec(), Some(token.clone()));
    assert_eq!(out.gateway, "GATEWAY");
    assert_eq!(out.gas_service, "GAS");
    assert_eq!(out.destination_chain, "avalanche");
    assert_eq!(out.destination_address, "0xdef");
    assert_eq!(out.gas_payment, Some(token));
    assert_eq!(out.payload, abi_encode(&b"hello".to_vec()));
    let unpaid = sender.send("avalanche".to_string(), "0xdef".to_string(), &b"hello".to_vec(), None);
    assert_eq!(unpaid.gas_payment, None);

    let mut receiver = NormalOracle::new();
    receiver
        .__execute("stellar".to_string(), "id-3".to_string(), "SENDER".to_string(), out.payload)
        .unwrap();
    assert_eq!(receiver.received_message(), b"hello".to_vec());
    assert_eq!(sender.__gateway(), "GATEWAY");
    assert_eq!(sender.gas_service(), "GAS");
}
