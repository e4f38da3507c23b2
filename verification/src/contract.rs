use vstd::prelude::*;
use crate::address::ACCOUNT_ID_LEN;
use crate::address::ExternalAddress;
use crate::address::IntAddrV;
use crate::address::InternalAddress;
use crate::address::msg_address_v;
use crate::address::zero_addr_v;
use crate::codec::canon_tree;
use crate::codec::canonicalize_tree;
use crate::codec::encode_init;
use crate::codec::opt_canon;
use crate::codec::opt_lib_ok;
use crate::codec::init_wire;
use crate::codec::opt_view_owned;
use crate::codec::parsed_init;
use crate::codec::split_init;
use crate::codec::tree_ok;
use crate::errors::SdkError;
use crate::image::ContractImage;
use crate::image::StateInitData;
use crate::message::emit_external;
use crate::message::emit_internal;
use crate::message::body_on_wire;
use crate::message::emittable;
use crate::message::init_bytes_wf;
use crate::message::msg_id;
use crate::message::msg_wire;
use crate::message::parse_body_part;
use crate::message::parse_header;
use crate::message::parse_init_part;
use crate::message::wire_body;
use crate::message::wire_header;
use crate::message::wire_init;
use crate::message::HeaderV;
use crate::message::Message;
use crate::message::MessageHeader;
use crate::message::MsgV;
use crate::message::MAX_CURRENCY;

verus! {

/// A caller-supplied description of a contract call: ABI definition
/// text, function name, optional header values and input arguments,
/// all as JSON text handed through to the ABI collaborator.
#[derive(Debug, Clone)]
pub struct FunctionCallSet {
    pub func: String,
    pub header: Option<String>,
    pub input: String,
    pub abi: String,
}

/// A fully built message: its content-addressed identifier, its wire
/// bytes, its structured form, and the address it targets. Immutable
/// once produced; attaching a signature yields a fresh value.
#[derive(Debug)]
pub struct SdkMessage {
    pub id: Vec<u8>,
    pub serialized_message: Vec<u8>,
    pub message: Message,
    pub address: InternalAddress,
}

/// The artifact of the signing protocol's first phase: the unsigned
/// message wire bytes and the exact bytes a signer must sign. A plain
/// value, safe to carry across process boundaries.
#[derive(Debug, Clone)]
pub struct MessageToSign {
    pub message: Vec<u8>,
    pub data_to_sign: Vec<u8>,
}

/// The source an internal builder resolves an optional source to: the
/// given address, or the all-zero standard address when none was named.
pub open spec fn resolved_src_v(src: Option<InternalAddress>) -> IntAddrV {
    match src {
        Some(a) => a@,
        None => zero_addr_v(),
    }
}

/// Namespace for the message construction, serialization and signing
/// operations.
pub struct Contract {}

impl Contract {
    /// Serialize a message to its canonical wire bytes and derive its
    /// content-addressed identifier. Construction and wire encoding are
    /// inseparable for callers: every builder returns both.
    pub fn serialize_message(msg: &Message) -> (r: Result<(Vec<u8>, Vec<u8>), SdkError>)
        requires
            msg.header.wf(),
        ensures
            r matches Ok(p) ==> p.0@ == msg_wire(msg.model()) && p.1@ == msg_id(msg.model())
                && p.1@.len() == 32 && tree_ok(p.0@) && wire_header(p.0@) == Some(msg.header@)
                && wire_body(p.0@) == Some(body_on_wire(opt_view_owned(msg.body))),
            msg.wf() && (r matches Ok(p)) ==> init_bytes_wf(msg.model().init),
            r matches Ok(p) ==> (msg.wf() ==> wire_init(p.0@) == Some(msg.model().init)),
            r matches Ok(p) ==> (msg.wf() ==> (match msg.init {
                Some(i) => parsed_init(init_wire(i@.record())) == Some(i@.record()),
                None => true,
            })),
            msg.wf() ==> r matches Ok(p),
            r matches Err(e) ==> e matches SdkError::DecodeError { .. },
    {
        let init_bytes: Option<Vec<u8>> = match &msg.init {
            Some(i) => Some(
                encode_init(
                    i.split_depth,
                    i.tick_tock,
                    i.code.as_ref(),
                    i.data.as_ref(),
                    i.library.as_ref(),
                )?.0,
            ),
            None => None,
        };
        match &msg.header {
            MessageHeader::External { src, dst } => emit_external(
                src,
                dst,
                init_bytes.as_ref(),
                msg.body.as_ref(),
            ),
            MessageHeader::Internal { src, dst, value, ihr_disabled, bounce } => emit_internal(
                src,
                dst,
                *value,
                *ihr_disabled,
                *bounce,
                init_bytes.as_ref(),
                msg.body.as_ref(),
            ),
        }
    }

    /// Parse wire bytes back into a structured message: the inverse of
    /// [`Contract::serialize_message`] on the messages this crate
    /// builds. Fails with `DecodeError` on malformed bytes and with
    /// `InvalidData` on a message kind this crate does not model.
    pub fn deserialize_message(message: &Vec<u8>) -> (r: Result<Message, SdkError>)
        ensures
            r matches Ok(m) ==> wire_header(message@) == Some(m.header@) && wire_body(message@)
                == Some(opt_view_owned(m.body)) && opt_canon(opt_view_owned(m.body)) && (match m.init {
                Some(i) => (wire_init(message@) matches Some(oi) && oi matches Some(ib)
                    && parsed_init(ib) == Some(i@.record()) && opt_canon(i@.code) && opt_canon(
                    i@.data,
                ) && opt_canon(i@.library) && crate::codec::split_ok(i@.split_depth)),
                None => wire_init(message@) == Some(None::<Seq<u8>>),
            }),
            (exists|mv: MsgV| message@ == msg_wire(mv) && emittable(mv)) ==> r matches Ok(m),
            ((wire_header(message@) matches Some(h)) && (match wire_init(message@) {
                Some(oi) => match oi {
                    Some(ib) => parsed_init(ib) matches Some(q) && opt_lib_ok(q.library),
                    None => true,
                },
                None => false,
            }) && (wire_body(message@) matches Some(ob))) ==> r matches Ok(m),
            r matches Ok(m) ==> (forall|mv: MsgV|
                (message@ == msg_wire(mv) && emittable(mv) && ((mv.body matches Some(x)) == (
                m.body matches Some(y)))) ==> (m.header@ == mv.header && m.model().init == mv.init
                    && opt_view_owned(m.body) == mv.body)),
            r matches Err(e) ==> (e matches SdkError::DecodeError { .. } || e matches
                SdkError::InvalidData { .. }),
    {
        let header = parse_header(message)?;
        let init_bytes = parse_init_part(message)?;
        let init: Option<StateInitData> = match init_bytes {
            Some(ib) => {
                let (split_depth, tick_tock, code, data, library) = split_init(&ib)?;
                Some(StateInitData { split_depth, tick_tock, code, data, library })
            },
            None => None,
        };
        let body = parse_body_part(message)?;
        Ok(Message { header, init, body })
    }

    /// The destination address of a serialized message; `InvalidData`
    /// when the message kind carries none.
    pub fn get_dst_from_msg(msg: &Vec<u8>) -> (r: Result<InternalAddress, SdkError>)
        ensures
            r matches Ok(a) ==> (wire_header(msg@) matches Some(h) && a@ == h.dst()),
            (r matches Ok(a)) == (wire_header(msg@) matches Some(h)),
            r matches Err(e) ==> (e matches SdkError::DecodeError { .. } || e matches
                SdkError::InvalidData { .. }),
    {
        let header = parse_header(msg)?;
        Ok(header.dst_address())
    }

    /// Validate wire bytes as a single-root tree and hand back its
    /// canonical serialization.
    pub fn deserialize_tree_to_slice(data: &Vec<u8>) -> (r: Result<Vec<u8>, SdkError>)
        ensures
            r matches Ok(c) ==> tree_ok(data@) && c@ == canon_tree(data@),
            (r matches Ok(c)) == tree_ok(data@),
            r matches Err(e) ==> e matches SdkError::DecodeError { .. },
    {
        canonicalize_tree(data)
    }

    /// Build an internal message around an already-encoded body and
    /// serialize it. An absent source is resolved to the all-zero
    /// standard address.
    pub fn construct_int_message_with_body(
        dst_address: InternalAddress,
        src_address: Option<InternalAddress>,
        ihr_disabled: bool,
        bounce: bool,
        value: u128,
        msg_body: Option<&Vec<u8>>,
    ) -> (r: Result<SdkMessage, SdkError>)
        requires
            dst_address.wf(),
            src_address matches Some(a) ==> a.wf(),
            value < MAX_CURRENCY,
        ensures
            r matches Ok(sm) ==> sm.message.wf() && (sm.message.header@ == (HeaderV::Internal {
                src: resolved_src_v(src_address),
                dst: dst_address@,
                value: value as int,
                ihr_disabled,
                bounce,
            }) && (sm.message.init matches None) && (match (
            msg_body,
            sm.message.body,
        ) {
                (Some(b), Some(cb)) => cb@ == canon_tree(b@),
                (None, None) => true,
                _ => false,
            }) && sm.serialized_message@ == msg_wire(sm.message.model()) && sm.id@ == msg_id(
                sm.message.model(),
            ) && sm.address@ == dst_address@),
            (r matches Ok(sm)) == (match msg_body {
                Some(b) => tree_ok(b@),
                None => true,
            }),
            r matches Err(e) ==> e matches SdkError::DecodeError { .. },
    {
        let body: Option<Vec<u8>> = match msg_body {
            Some(b) => Some(canonicalize_tree(b)?),
            None => None,
        };
        let src = match src_address {
            Some(a) => a,
            None => InternalAddress::zero(),
        };
        let header = MessageHeader::Internal {
            src,
            dst: dst_address.clone(),
            value,
            ihr_disabled,
            bounce,
        };
        let message = Message { header, init: None, body };
        let (serialized, id) = Self::serialize_message(&message)?;
        Ok(SdkMessage { id, serialized_message: serialized, message, address: dst_address })
    }

    /// Build an external inbound call message around an already-encoded
    /// body and serialize it.
    pub fn construct_call_ext_in_message(
        address: InternalAddress,
        src_address: ExternalAddress,
        body: &Vec<u8>,
    ) -> (r: Result<SdkMessage, SdkError>)
        requires
            address.wf(),
            src_address.wf(),
        ensures
            r matches Ok(sm) ==> sm.message.wf() && sm.message.header@ == (HeaderV::External {
                src: src_address@,
                dst: address@,
            }) && (sm.message.init matches None) && (sm.message.body matches Some(cb) && cb@
                == canon_tree(body@)) && sm.serialized_message@ == msg_wire(sm.message.model())
                && sm.id@ == msg_id(sm.message.model()) && sm.address@ == address@,
            (r matches Ok(sm)) == tree_ok(body@),
            r matches Err(e) ==> e matches SdkError::DecodeError { .. },
    {
        let body_c = canonicalize_tree(body)?;
        let header = MessageHeader::External { src: src_address, dst: address.clone() };
        let message = Message { header, init: None, body: Some(body_c) };
        let (serialized, id) = Self::serialize_message(&message)?;
        Ok(SdkMessage { id, serialized_message: serialized, message, address })
    }

    /// Build an external deploy message around the image's state-init
    /// and an optional already-encoded constructor body. The destination
    /// is the image's derived address in the given workchain; the image
    /// is consumed into the message.
    pub fn construct_deploy_message_with_body(
        image: ContractImage,
        body: Option<&Vec<u8>>,
        workchain_id: i32,
        src_address: ExternalAddress,
    ) -> (r: Result<Message, SdkError>)
        requires
            image@.id.len() == ACCOUNT_ID_LEN,
            src_address.wf(),
        ensures
            r matches Ok(m) ==> m.header@ == (HeaderV::External {
                src: src_address@,
                dst: msg_address_v(workchain_id as int, image@.id),
            }) && (m.init matches Some(i) && i@.record() == image@.record()) && (match (
            m.body,
            body,
        ) {
                (Some(cb), Some(b)) => cb@ == canon_tree(b@),
                (None, None) => true,
                _ => false,
            }) && (image@.wf() ==> m.wf()),
            (r matches Ok(m)) == (match body {
                Some(b) => tree_ok(b@),
                None => true,
            }),
            r matches Err(e) ==> e matches SdkError::DecodeError { .. },
    {
        let body_c: Option<Vec<u8>> = match body {
            Some(b) => Some(canonicalize_tree(b)?),
            None => None,
        };
        let dst = image.msg_address(workchain_id);
        let init = image.state_init();
        let header = MessageHeader::External { src: src_address, dst };
        Ok(Message { header, init: Some(init), body: body_c })
    }

    /// Build an external deploy message with no constructor call.
    pub fn construct_deploy_message_no_constructor(
        image: ContractImage,
        workchain_id: i32,
        src_address: ExternalAddress,
    ) -> (r: Result<Message, SdkError>)
        requires
            image@.id.len() == ACCOUNT_ID_LEN,
            src_address.wf(),
        ensures
            r matches Ok(m) ==> m.header@ == (HeaderV::External {
                src: src_address@,
                dst: msg_address_v(workchain_id as int, image@.id),
            }) && (m.init matches Some(i) && i@.record() == image@.record()) && (m.body matches
                None) && (image@.wf() ==> m.wf()),
            r matches Ok(m),
    {
        Self::construct_deploy_message_with_body(image, None, workchain_id, src_address)
    }

    /// Build an internal deploy message with no constructor call. An
    /// absent source is resolved to the all-zero standard address.
    pub fn construct_int_deploy_message_no_constructor(
        src: Option<InternalAddress>,
        image: ContractImage,
        workchain_id: i32,
        ihr_disabled: bool,
        bounce: bool,
        value: u128,
    ) -> (r: Result<Message, SdkError>)
        requires
            image@.id.len() == ACCOUNT_ID_LEN,
            src matches Some(a) ==> a.wf(),
            value < MAX_CURRENCY,
        ensures
            r matches Ok(m) ==> m.header@ == (HeaderV::Internal {
                src: resolved_src_v(src),
                dst: msg_address_v(workchain_id as int, image@.id),
                value: value as int,
                ihr_disabled,
                bounce,
            }) && (m.init matches Some(i) && i@.record() == image@.record()) && (m.body matches
                None) && (image@.wf() ==> m.wf()),
            r matches Ok(m),
    {
        let dst = image.msg_address(workchain_id);
        let init = image.state_init();
        let src_a = match src {
            Some(a) => a,
            None => InternalAddress::zero(),
        };
        let header = MessageHeader::Internal { src: src_a, dst, value, ihr_disabled, bounce };
        Ok(Message { header, init: Some(init), body: None })
    }

    /// Build an internal deploy message around an already-encoded
    /// constructor body and serialize it to wire bytes.
    pub fn get_int_deploy_message_bytes(
        src: Option<InternalAddress>,
        image: ContractImage,
        workchain_id: i32,
        ihr_disabled: bool,
        bounce: bool,
        value: u128,
        body: &Vec<u8>,
    ) -> (r: Result<Vec<u8>, SdkError>)
        requires
            image@.id.len() == ACCOUNT_ID_LEN,
            src matches Some(a) ==> a.wf(),
            value < MAX_CURRENCY,
        ensures
            r matches Ok(b) ==> b@ == msg_wire(
                MsgV {
                    header: HeaderV::Internal {
                        src: resolved_src_v(src),
                        dst: msg_address_v(workchain_id as int, image@.id),
                        value: value as int,
                        ihr_disabled,
                        bounce,
                    },
                    init: Some(init_wire(image@.record())),
                    body: Some(canon_tree(body@)),
                },
            ),
            image@.wf() && tree_ok(body@) ==> r matches Ok(b),
            r matches Err(e) ==> e matches SdkError::DecodeError { .. },
    {
        let body_c = canonicalize_tree(body)?;
        let dst = image.msg_address(workchain_id);
        let init = image.state_init();
        let src_a = match src {
            Some(a) => a,
            None => InternalAddress::zero(),
        };
        let header = MessageHeader::Internal { src: src_a, dst, value, ihr_disabled, bounce };
        let message = Message { header, init: Some(init), body: Some(body_c) };
        let (serialized, _id) = Self::serialize_message(&message)?;
        proof {
            assert(serialized@ == msg_wire(message.model()));
        }
        Ok(serialized)
    }

    /// First phase of the signing protocol for a call: wrap the
    /// unsigned body into an external message, serialize it, and hand
    /// back the bytes together with the digest the signer must sign.
    pub fn get_call_message_bytes_for_signing(
        dst_address: InternalAddress,
        src_address: ExternalAddress,
        body: &Vec<u8>,
        data_to_sign: &Vec<u8>,
    ) -> (r: Result<MessageToSign, SdkError>)
        requires
            dst_address.wf(),
            src_address.wf(),
        ensures
            r matches Ok(m) ==> m.data_to_sign@ == data_to_sign@ && m.message@ == msg_wire(
                MsgV {
                    header: HeaderV::External { src: src_address@, dst: dst_address@ },
                    init: None,
                    body: Some(canon_tree(body@)),
                },
            ) && wire_header(m.message@) == Some(
                HeaderV::External { src: src_address@, dst: dst_address@ },
            ) && wire_body(m.message@) == Some(body_on_wire(Some(canon_tree(body@))))
                && wire_init(m.message@) == Some(None::<Seq<u8>>),
            (r matches Ok(m)) == tree_ok(body@),
            r matches Err(e) ==> e matches SdkError::DecodeError { .. },
    {
        let body_c = canonicalize_tree(body)?;
        let header = MessageHeader::External { src: src_address, dst: dst_address };
        let message = Message { header, init: None, body: Some(body_c) };
        let (serialized, _id) = Self::serialize_message(&message)?;
        proof {
            assert(serialized@ == msg_wire(message.model()));
        }
        Ok(MessageToSign { message: serialized, data_to_sign: data_to_sign.clone() })
    }

    /// First phase of the signing protocol for a deploy: as for a call,
    /// with the image's state-init attached and its derived address as
    /// destination.
    pub fn get_deploy_message_bytes_for_signing(
        image: ContractImage,
        workchain_id: i32,
        src_address: ExternalAddress,
        body: &Vec<u8>,
        data_to_sign: &Vec<u8>,
    ) -> (r: Result<MessageToSign, SdkError>)
        requires
            image@.id.len() == ACCOUNT_ID_LEN,
            src_address.wf(),
        ensures
            r matches Ok(m) ==> m.data_to_sign@ == data_to_sign@ && m.message@ == msg_wire(
                MsgV {
                    header: HeaderV::External {
                        src: src_address@,
                        dst: msg_address_v(workchain_id as int, image@.id),
                    },
                    init: Some(init_wire(image@.record())),
                    body: Some(canon_tree(body@)),
                },
            ) && wire_header(m.message@) == Some(
                HeaderV::External {
                    src: src_address@,
                    dst: msg_address_v(workchain_id as int, image@.id),
                },
            ) && wire_body(m.message@) == Some(body_on_wire(Some(canon_tree(body@)))) && (
            image@.wf() ==> wire_init(m.message@) == Some(Some(init_wire(image@.record())))),
            image@.wf() && tree_ok(body@) ==> r matches Ok(m),
            r matches Err(e) ==> e matches SdkError::DecodeError { .. },
    {
        let message = Self::construct_deploy_message_with_body(
            image,
            Some(body),
            workchain_id,
            src_address,
        )?;
        let (serialized, _id) = Self::serialize_message(&message)?;
        proof {
            assert(serialized@ == msg_wire(message.model()));
        }
        Ok(MessageToSign { message: serialized, data_to_sign: data_to_sign.clone() })
    }

    /// Second phase of the signing protocol: re-parse a prepared
    /// message, replace its body with the signed body the ABI
    /// collaborator produced, re-serialize, and hand back a fresh
    /// message whose identifier reflects the new content. A message
    /// without a body cannot carry a signature and fails with
    /// `InvalidData`.
    pub fn attach_signature(signed_body: &Vec<u8>, message: &Vec<u8>) -> (r: Result<
        SdkMessage,
        SdkError,
    >)
        ensures
            wire_body(message@) == Some(None::<Seq<u8>>) ==> (r matches Err(e) && e matches
                SdkError::InvalidData { .. }),
            r matches Ok(sm) ==> wire_header(message@) == Some(sm.message.header@)
                && (sm.message.body matches Some(nb) && nb@ == canon_tree(signed_body@))
                && (match sm.message.init {
                Some(i) => (wire_init(message@) matches Some(oi) && oi matches Some(ib)
                    && parsed_init(ib) == Some(i@.record())),
                None => wire_init(message@) == Some(None::<Seq<u8>>),
            })
                && sm.serialized_message@ == msg_wire(sm.message.model()) && sm.id@ == msg_id(
                sm.message.model(),
            ) && sm.address@ == sm.message.header@.dst(),
            ((wire_header(message@) matches Some(h) && h.wf()) && (wire_body(message@) matches
                Some(ob) && ob matches Some(bb)) && (match wire_init(message@) {
                Some(oi) => match oi {
                    Some(ib) => parsed_init(ib) matches Some(q) && opt_lib_ok(q.library),
                    None => true,
                },
                None => false,
            }) && tree_ok(signed_body@)) ==> r matches Ok(sm),
    {
        let body = parse_body_part(message)?;
        if body.is_none() {
            return Err(SdkError::InvalidData { msg: "No message body".to_string() });
        }
        let parsed = Self::deserialize_message(message)?;
        let new_body = canonicalize_tree(signed_body)?;
        let new_message = Message {
            header: parsed.header,
            init: parsed.init,
            body: Some(new_body),
        };
        if !new_message.header.check_wf() {
            return Err(SdkError::InvalidData { msg: "Malformed message header".to_string() });
        }
        let address = new_message.header.dst_address();
        let (serialized, id) = Self::serialize_message(&new_message)?;
        Ok(SdkMessage { id, serialized_message: serialized, message: new_message, address })
    }

    /// Second phase of the signing protocol, under the name used by the
    /// one-shot flow; identical to [`Contract::attach_signature`].
    pub fn add_sign_to_message(signed_body: &Vec<u8>, message: &Vec<u8>) -> (r: Result<
        SdkMessage,
        SdkError,
    >)
        ensures
            wire_body(message@) == Some(None::<Seq<u8>>) ==> (r matches Err(e) && e matches
                SdkError::InvalidData { .. }),
            r matches Ok(sm) ==> wire_header(message@) == Some(sm.message.header@)
                && (sm.message.body matches Some(nb) && nb@ == canon_tree(signed_body@))
                && (match sm.message.init {
                Some(i) => (wire_init(message@) matches Some(oi) && oi matches Some(ib)
                    && parsed_init(ib) == Some(i@.record())),
                None => wire_init(message@) == Some(None::<Seq<u8>>),
            })
                && sm.serialized_message@ == msg_wire(sm.message.model()) && sm.id@ == msg_id(
                sm.message.model(),
            ) && sm.address@ == sm.message.header@.dst(),
            ((wire_header(message@) matches Some(h) && h.wf()) && (wire_body(message@) matches
                Some(ob) && ob matches Some(bb)) && (match wire_init(message@) {
                Some(oi) => match oi {
                    Some(ib) => parsed_init(ib) matches Some(q) && opt_lib_ok(q.library),
                    None => true,
                },
                None => false,
            }) && tree_ok(signed_body@)) ==> r matches Ok(sm),
    {
        Self::attach_signature(signed_body, message)
    }

    /// The shard-ownership predicate, on a JSON descriptor.
    pub fn check_shard_match(
        shard_descr: &serde_json::Value,
        address: &InternalAddress,
    ) -> (r: Result<bool, SdkError>)
        requires
            address@.account().len() == ACCOUNT_ID_LEN,
        ensures
            r matches Ok(m) ==> (crate::shard::parsed_descr(*shard_descr) matches Some(d) && m
                == crate::shard::descr_matches(d, address@)),
            (r matches Ok(m)) == (crate::shard::parsed_descr(*shard_descr) matches Some(x)),
    {
        crate::shard::check_shard_match(shard_descr, address)
    }

    /// First matching descriptor in caller order, as an index; `None`
    /// when no shard owns the address.
    pub fn find_matching_shard(
        shards: &Vec<serde_json::Value>,
        address: &InternalAddress,
    ) -> (r: Result<Option<usize>, SdkError>)
        requires
            address@.account().len() == ACCOUNT_ID_LEN,
        ensures
            r matches Ok(o) ==> (o matches Some(i) ==> i < shards@.len() && crate::shard::match_at(
                shards@[i as int],
                address@,
            ) && (forall|j: int| 0 <= j < i ==> crate::shard::no_match_at(shards@[j], address@))),
            r matches Ok(o) ==> (o matches None ==> forall|j: int|
                0 <= j < shards@.len() ==> crate::shard::no_match_at(shards@[j], address@)),
            r matches Err(e) ==> exists|j: int|
                0 <= j < shards@.len() && ((#[trigger] crate::shard::parsed_descr(shards@[j]))
                    matches None),
    {
        crate::shard::find_matching_shard(shards, address)
    }

    /// Relies on `chrono::Utc::now`: the current time as seconds since
    /// the epoch, truncated to 32 bits. Nothing is promised of the
    /// value.
    #[verifier::external_body]
    pub fn now() -> u32 {
        chrono::Utc::now().timestamp() as u32
    }
}

impl MessageHeader {
    /// Decide well-formedness of a header at run time.
    pub fn check_wf(&self) -> (r: bool)
        ensures
            r == self.wf(),
    {
        match self {
            MessageHeader::External { src, dst } => {
                let src_ok = match src {
                    ExternalAddress::Absent => true,
                    ExternalAddress::External { bit_len, data } => *bit_len < 512 && data.len()
                        == ((*bit_len as usize) + 7) / 8 && (*bit_len % 8 == 0 || (data.len() > 0
                        && data[data.len() - 1] & (0xFFu8 >> ((*bit_len % 8) as u8)) == 0)),
                };
                src_ok && dst.account_len_ok()
            },
            MessageHeader::Internal { src, dst, value, .. } => src.account_len_ok()
                && dst.account_len_ok() && *value < MAX_CURRENCY,
        }
    }
}

impl InternalAddress {
    /// Whether the account identifier has its fixed width.
    pub fn account_len_ok(&self) -> (r: bool)
        ensures
            r == self@.wf(),
    {
        match self {
            InternalAddress::Standard { account, .. } => account.len() == ACCOUNT_ID_LEN,
            InternalAddress::Variant { account, .. } => account.len() == ACCOUNT_ID_LEN,
        }
    }
}

} // verus!
