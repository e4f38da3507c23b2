use serde_json::Value;
use tvm_sdk::contract::Contract;
use tvm_sdk::errors::SdkError;
use tvm_sdk::image::ContractImage;
use tvm_sdk::address::InternalAddress;
use everscale_types::boc::Boc;
use everscale_types::cell::CellBuilder;

fn descr(json: &str) -> Value {
    serde_json::from_str(json).unwrap()
}

fn some_address(tag: u8, workchain: i32) -> InternalAddress {
    let mut b = CellBuilder::new();
    b.store_u8(tag).unwrap();
    let code = Boc::encode(&b.build().unwrap());
    let image = ContractImage::from_code_data_and_library(&code, None, None).unwrap();
    image.msg_address(workchain)
}

#[test]
fn two_way_split_matches_exactly_one() {
    let low = descr("{\"workchain_id\":0,\"shard\":\"4000000000000000\"}");
    let high = descr("{\"workchain_id\":0,\"shard\":\"c000000000000000\"}");
    for tag in 0u8..8 {
        let address = some_address(tag, 0);
        let in_low = Contract::check_shard_match(&low, &address).unwrap();
        let in_high = Contract::check_shard_match(&high, &address).unwrap();
        assert!(in_low != in_high, "exactly one half must own the address");
        let shards = vec![low.clone(), high.clone()];
        let found = Contract::find_matching_shard(&shards, &address).unwrap();
        assert_eq!(found, Some(if in_low { 0 } else { 1 }));
    }
}

#[test]
fn full_shard_matches_whole_workchain() {
    let full = descr("{\"workchain_id\":0,\"shard\":\"8000000000000000\"}");
    let address = some_address(1, 0);
    assert!(Contract::check_shard_match(&full, &address).unwrap());
}

#[test]
fn workchain_must_agree() {
    let full = descr("{\"workchain_id\":1,\"shard\":\"8000000000000000\"}");
    let address = some_address(1, 0);
    assert!(!Contract::check_shard_match(&full, &address).unwrap());
}

#[test]
fn numeric_and_text_shards_agree() {
    let text = descr("{\"workchain_id\":0,\"shard\":\"4000000000000000\"}");
    let num = descr("{\"workchain_id\":0,\"shard\":4611686018427387904}");
    let address = some_address(2, 0);
    assert_eq!(
        Contract::check_shard_match(&text, &address).unwrap(),
        Contract::check_shard_match(&num, &address).unwrap(),
    );
}

#[test]
fn no_match_is_a_value_not_an_error() {
    let low = descr("{\"workchain_id\":7,\"shard\":\"8000000000000000\"}");
    let address = some_address(1, 0);
    let shards = vec![low];
    assert_eq!(Contract::find_matching_shard(&shards, &address).unwrap(), None);
}

#[test]
fn malformed_descriptor_is_decode_error() {
    let missing = descr("{\"shard\":\"8000000000000000\"}");
    let address = some_address(1, 0);
    let err = Contract::check_shard_match(&missing, &address).unwrap_err();
    assert!(matches!(err, SdkError::DecodeError { .. }));
    let bad_hex = descr("{\"workchain_id\":0,\"shard\":\"80000000zz000000\"}");
    let err = Contract::check_shard_match(&bad_hex, &address).unwrap_err();
    assert!(matches!(err, SdkError::DecodeError { .. }));
}

#[test]
fn zero_shard_is_invalid_data() {
    let zero = descr("{\"workchain_id\":0,\"shard\":0}");
    let address = some_address(1, 0);
    let err = Contract::check_shard_match(&zero, &address).unwrap_err();
    assert!(matches!(err, SdkError::InvalidData { .. }));
}
