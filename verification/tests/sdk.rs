use ed25519_dalek::Signer;
use everscale_types::boc::Boc;
use everscale_types::cell::CellBuilder;
use tvm_sdk::address::ExternalAddress;
use tvm_sdk::address::InternalAddress;
use tvm_sdk::contract::Contract;
use tvm_sdk::errors::SdkError;
use tvm_sdk::image::ContractImage;
use tvm_sdk::message::MessageHeader;

fn tiny_tree(tag: u8) -> Vec<u8> {
    let mut b = CellBuilder::new();
    b.store_u8(tag).unwrap();
    Boc::encode(&b.build().unwrap())
}

fn workchain0_address(image: &ContractImage) -> InternalAddress {
    image.msg_address(0)
}

#[test]
fn image_identity_is_deterministic() {
    let code = tiny_tree(1);
    let data = tiny_tree(2);
    let a = ContractImage::from_code_data_and_library(&code, Some(&data), None).unwrap();
    let b = ContractImage::from_code_data_and_library(&code, Some(&data), None).unwrap();
    assert_eq!(a.account_id(), b.account_id());
    let c = ContractImage::from_code_data_and_library(&code, Some(&tiny_tree(3)), None).unwrap();
    assert_ne!(a.account_id(), c.account_id());
}

#[test]
fn image_from_state_init_round_trip() {
    let code = tiny_tree(1);
    let a = ContractImage::from_code_data_and_library(&code, None, None).unwrap();
    let wire = a.serialize().unwrap();
    let b = ContractImage::from_state_init(&wire).unwrap();
    assert_eq!(a.account_id(), b.account_id());
    assert_eq!(a.get_serialized_code().unwrap(), b.get_serialized_code().unwrap());
    let c = ContractImage::from_cell(&wire).unwrap();
    assert_eq!(a.account_id(), c.account_id());
}

#[test]
fn public_key_embedding_round_trip() {
    let code = tiny_tree(1);
    let mut image = ContractImage::from_code_data_and_library(&code, None, None).unwrap();
    let before = image.account_id();
    assert_eq!(image.get_public_key().unwrap(), None);
    let key = vec![7u8; 32];
    image.set_public_key(&key).unwrap();
    assert_eq!(image.get_public_key().unwrap(), Some(key.clone()));
    assert_ne!(image.account_id(), before);
    let wire = image.serialize().unwrap();
    let again = ContractImage::from_state_init_and_key(&wire, &key).unwrap();
    assert_eq!(again.get_public_key().unwrap(), Some(key));
}

#[test]
fn address_form_follows_workchain_range() {
    let image = ContractImage::from_code_data_and_library(&tiny_tree(1), None, None).unwrap();
    assert!(matches!(image.msg_address(0), InternalAddress::Standard { workchain: 0, .. }));
    assert!(matches!(image.msg_address(-1), InternalAddress::Standard { workchain: -1, .. }));
    assert!(matches!(image.msg_address(127), InternalAddress::Standard { workchain: 127, .. }));
    assert!(matches!(image.msg_address(129), InternalAddress::Variant { workchain: 129, .. }));
    assert!(matches!(image.msg_address(-128), InternalAddress::Variant { workchain: -128, .. }));
    assert_eq!(image.msg_address(5).account_id(), image.account_id());
}

#[test]
fn internal_message_round_trip() {
    let image = ContractImage::from_code_data_and_library(&tiny_tree(1), None, None).unwrap();
    let dst = workchain0_address(&image);
    let body = tiny_tree(9);
    let sdk_msg = Contract::construct_int_message_with_body(
        dst.clone(),
        None,
        true,
        false,
        1_000_000u128,
        Some(&body),
    )
    .unwrap();
    assert_eq!(sdk_msg.id.len(), 32);
    let parsed = Contract::deserialize_message(&sdk_msg.serialized_message).unwrap();
    match &parsed.header {
        MessageHeader::Internal { dst: pdst, value, ihr_disabled, bounce, .. } => {
            assert_eq!(pdst.account_id(), dst.account_id());
            assert_eq!(*value, 1_000_000u128);
            assert!(*ihr_disabled);
            assert!(!*bounce);
        }
        _ => panic!("wrong header kind"),
    }
    assert_eq!(parsed.body.as_deref(), Some(body.as_slice()));
    assert!(parsed.init.is_none());
    let (rewire, reid) = Contract::serialize_message(&parsed).unwrap();
    assert_eq!(rewire, sdk_msg.serialized_message);
    assert_eq!(reid, sdk_msg.id);
}

#[test]
fn deploy_message_round_trip() {
    let code = tiny_tree(1);
    let data = tiny_tree(2);
    let image = ContractImage::from_code_data_and_library(&code, Some(&data), None).unwrap();
    let id = image.account_id();
    let body = tiny_tree(4);
    let msg = Contract::construct_deploy_message_with_body(
        image,
        Some(&body),
        0,
        ExternalAddress::Absent,
    )
    .unwrap();
    let (wire, msg_id) = Contract::serialize_message(&msg).unwrap();
    let parsed = Contract::deserialize_message(&wire).unwrap();
    match &parsed.header {
        MessageHeader::External { dst, .. } => assert_eq!(dst.account_id(), id),
        _ => panic!("wrong header kind"),
    }
    let init = parsed.init.as_ref().expect("deploy carries a state init");
    assert_eq!(init.code.as_deref(), Some(code.as_slice()));
    assert_eq!(init.data.as_deref(), Some(data.as_slice()));
    assert!(init.library.is_none());
    assert_eq!(parsed.body.as_deref(), Some(body.as_slice()));
    let (rewire, reid) = Contract::serialize_message(&parsed).unwrap();
    assert_eq!(rewire, wire);
    assert_eq!(reid, msg_id);
}

#[test]
fn get_dst_matches_builder_destination() {
    let image = ContractImage::from_code_data_and_library(&tiny_tree(1), None, None).unwrap();
    let dst = image.msg_address(0);
    let sdk_msg = Contract::construct_int_message_with_body(
        dst.clone(),
        None,
        false,
        true,
        5u128,
        Some(&tiny_tree(8)),
    )
    .unwrap();
    let found = Contract::get_dst_from_msg(&sdk_msg.serialized_message).unwrap();
    assert_eq!(found.account_id(), dst.account_id());
    assert_eq!(found.workchain_id(), 0);
}

#[test]
fn signing_two_phase_round_trip() {
    let image = ContractImage::from_code_data_and_library(&tiny_tree(1), None, None).unwrap();
    let dst = image.msg_address(0);
    let unsigned_body = tiny_tree(10);
    let digest = vec![0x5au8; 32];
    let to_sign = Contract::get_call_message_bytes_for_signing(
        dst,
        ExternalAddress::Absent,
        &unsigned_body,
        &digest,
    )
    .unwrap();
    assert_eq!(to_sign.data_to_sign, digest);

    let key = ed25519_dalek::SigningKey::from_bytes(&[3u8; 32]);
    let signature = key.sign(&to_sign.data_to_sign);
    key.verifying_key().verify_strict(&to_sign.data_to_sign, &signature).unwrap();

    // The signed body stands for what the ABI collaborator would
    // produce: the unsigned body with the signature spliced into its
    // reserved slot.
    let mut b = CellBuilder::new();
    b.store_u8(10).unwrap();
    b.store_raw(&signature.to_bytes(), 512).unwrap();
    let signed_body = Boc::encode(&b.build().unwrap());

    let finished = Contract::attach_signature(&signed_body, &to_sign.message).unwrap();
    assert_ne!(finished.serialized_message, to_sign.message);
    assert_eq!(finished.message.body.as_deref(), Some(signed_body.as_slice()));
    let parsed = Contract::deserialize_message(&finished.serialized_message).unwrap();
    assert_eq!(parsed.body.as_deref(), Some(signed_body.as_slice()));
}

#[test]
fn attach_signature_without_body_is_invalid_data() {
    let image = ContractImage::from_code_data_and_library(&tiny_tree(1), None, None).unwrap();
    let msg = Contract::construct_deploy_message_no_constructor(
        image,
        0,
        ExternalAddress::Absent,
    )
    .unwrap();
    let (wire, _id) = Contract::serialize_message(&msg).unwrap();
    let err = Contract::attach_signature(&tiny_tree(2), &wire).unwrap_err();
    assert!(matches!(err, SdkError::InvalidData { .. }));
}

#[test]
fn serialized_code_of_empty_image_is_invalid_data() {
    let image = ContractImage::new().unwrap();
    let err = image.get_serialized_code().unwrap_err();
    assert!(matches!(err, SdkError::InvalidData { .. }));
    let err = image.get_serialized_data().unwrap_err();
    assert!(matches!(err, SdkError::InvalidData { .. }));
}

#[test]
fn arbitrary_tree_is_no_library_dictionary() {
    let err = ContractImage::from_code_data_and_library(&tiny_tree(1), None, Some(&tiny_tree(5)))
        .unwrap_err();
    assert!(matches!(err, SdkError::DecodeError { .. }));
}

#[test]
fn malformed_tree_is_decode_error() {
    let junk = vec![0u8, 1, 2, 3];
    let err = ContractImage::from_code_data_and_library(&junk, None, None).unwrap_err();
    assert!(matches!(err, SdkError::DecodeError { .. }));
    let err = Contract::deserialize_tree_to_slice(&junk).unwrap_err();
    assert!(matches!(err, SdkError::DecodeError { .. }));
}

#[test]
fn update_data_changes_identity() {
    let mut image = ContractImage::from_code_data_and_library(&tiny_tree(1), Some(&tiny_tree(2)), None)
        .unwrap();
    let before = image.account_id();
    image.update_data(&tiny_tree(3)).unwrap();
    assert_ne!(image.account_id(), before);
    assert_eq!(image.get_serialized_data().unwrap(), tiny_tree(3));
}

#[test]
fn canonical_tree_is_fixed_point() {
    let tree = tiny_tree(1);
    let canon = Contract::deserialize_tree_to_slice(&tree).unwrap();
    let again = Contract::deserialize_tree_to_slice(&canon).unwrap();
    assert_eq!(canon, again);
}

#[test]
fn int_deploy_bytes_parse_back() {
    let image = ContractImage::from_code_data_and_library(&tiny_tree(1), None, None).unwrap();
    let id = image.account_id();
    let bytes = Contract::get_int_deploy_message_bytes(
        None,
        image,
        0,
        true,
        true,
        42u128,
        &tiny_tree(6),
    )
    .unwrap();
    let parsed = Contract::deserialize_message(&bytes).unwrap();
    match &parsed.header {
        MessageHeader::Internal { dst, value, .. } => {
            assert_eq!(dst.account_id(), id);
            assert_eq!(*value, 42u128);
        }
        _ => panic!("wrong header kind"),
    }
    assert!(parsed.init.is_some());
}

#[test]
fn library_tree_survives_state_init_round_trip() {
    let code = tiny_tree(1);
    let mut dict: everscale_types::dict::Dict<everscale_types::cell::HashBytes, bool> =
        everscale_types::dict::Dict::new();
    dict.set(everscale_types::cell::HashBytes([9u8; 32]), true).unwrap();
    let library = Boc::encode(&dict.into_root().unwrap());
    let image =
        ContractImage::from_code_data_and_library(&code, None, Some(&library)).unwrap();
    let wire = image.serialize().unwrap();
    let again = ContractImage::from_state_init(&wire).unwrap();
    assert_eq!(image.account_id(), again.account_id());
    assert_eq!(again.serialize().unwrap(), wire);
}

#[test]
fn external_source_address_round_trip() {
    let image = ContractImage::from_code_data_and_library(&tiny_tree(1), None, None).unwrap();
    let dst = image.msg_address(0);
    let src = ExternalAddress::External { bit_len: 16, data: vec![0xAA, 0xBB] };
    let sdk_msg =
        Contract::construct_call_ext_in_message(dst, src, &tiny_tree(3)).unwrap();
    let parsed = Contract::deserialize_message(&sdk_msg.serialized_message).unwrap();
    match &parsed.header {
        MessageHeader::External { src, .. } => match src {
            ExternalAddress::External { bit_len, data } => {
                assert_eq!(*bit_len, 16);
                assert_eq!(data.as_slice(), &[0xAA, 0xBB]);
            }
            _ => panic!("source lost"),
        },
        _ => panic!("wrong header kind"),
    }
}

#[test]
fn error_kinds_carry_messages() {
    let err = ContractImage::new().unwrap().get_serialized_code().unwrap_err();
    assert!(err.is_invalid_data());
    assert!(!err.is_decode_error());
    assert!(!err.is_internal_error());
    assert_eq!(err.message(), "State init has no code");
}

#[test]
fn empty_body_tree_reads_back_as_absent() {
    // The wire format cannot distinguish an empty body tree from no
    // body: a message built around the empty tree parses back bodyless.
    let image = ContractImage::from_code_data_and_library(&tiny_tree(1), None, None).unwrap();
    let dst = image.msg_address(0);
    let empty_tree = Boc::encode(&CellBuilder::new().build().unwrap());
    let sdk_msg = Contract::construct_int_message_with_body(
        dst,
        None,
        false,
        false,
        1u128,
        Some(&empty_tree),
    )
    .unwrap();
    let parsed = Contract::deserialize_message(&sdk_msg.serialized_message).unwrap();
    assert!(parsed.body.is_none());
}

#[test]
fn split_depth_and_special_flags_survive() {
    let mut b = CellBuilder::new();
    b.store_u8(1).unwrap();
    let code_cell = b.build().unwrap();
    let init = everscale_types::models::StateInit {
        split_depth: Some(everscale_types::num::SplitDepth::new(2).unwrap()),
        special: Some(everscale_types::models::SpecialFlags { tick: true, tock: false }),
        code: Some(code_cell),
        data: None,
        libraries: everscale_types::dict::Dict::new(),
    };
    let wire = everscale_types::boc::BocRepr::encode(&init).unwrap();
    let image = ContractImage::from_state_init(&wire).unwrap();
    let rewire = image.serialize().unwrap();
    assert_eq!(rewire, wire);
    let again = ContractImage::from_state_init(&rewire).unwrap();
    assert_eq!(image.account_id(), again.account_id());
}

#[test]
fn exotic_root_is_rejected() {
    // A library-reference cell: exotic, one byte of tag and a 256-bit
    // hash. It decodes as a valid tree but cannot stand in a message.
    let mut b = CellBuilder::new();
    b.set_exotic(true);
    b.store_u8(2).unwrap();
    b.store_raw(&[0x11u8; 32], 256).unwrap();
    let exotic = Boc::encode(&b.build().unwrap());
    let image = ContractImage::from_code_data_and_library(&tiny_tree(1), None, None).unwrap();
    let dst = image.msg_address(0);
    let err = Contract::construct_call_ext_in_message(dst, ExternalAddress::Absent, &exotic)
        .unwrap_err();
    assert!(matches!(err, SdkError::DecodeError { .. }));
    let err = ContractImage::from_code_data_and_library(&exotic, None, None).unwrap_err();
    assert!(matches!(err, SdkError::DecodeError { .. }));
}
