use vstd::prelude::*;
use crate::address::ExtAddrV;
use crate::address::ExternalAddress;
use crate::address::IntAddrV;
use crate::address::InternalAddress;
use crate::address::ACCOUNT_ID_LEN;
use crate::codec::canon_tree;
use crate::codec::decode_error;
use crate::codec::init_wire;
use crate::codec::opt_canon;
use crate::codec::opt_tree_ok;
use crate::codec::opt_view;
use crate::codec::opt_view_owned;
use crate::codec::parsed_init;
use crate::codec::RecordV;
use crate::codec::tree_ok;
use crate::errors::SdkError;
use crate::image::StateInitData;
use everscale_types::boc::Boc;
use everscale_types::boc::BocRepr;
use everscale_types::cell::CellBuilder;
use everscale_types::cell::CellFamily;
use everscale_types::cell::HashBytes;
use everscale_types::models::BaseMessage;
use everscale_types::models::ExtAddr;
use everscale_types::models::ExtInMsgInfo;
use everscale_types::models::IntAddr;
use everscale_types::models::IntMsgInfo;
use everscale_types::models::MsgInfo;
use everscale_types::models::StdAddr;
use everscale_types::models::VarAddr;

verus! {

/// Upper bound (exclusive) on the native-currency amount an internal
/// message header can carry: the wire format stores it in 15 bytes.
pub const MAX_CURRENCY: u128 = 0x1000000000000000000000000000000;

/// Mathematical model of a message header.
pub enum HeaderV {
    External { src: ExtAddrV, dst: IntAddrV },
    Internal { src: IntAddrV, dst: IntAddrV, value: int, ihr_disabled: bool, bounce: bool },
}

impl HeaderV {
    pub open spec fn dst(self) -> IntAddrV {
        match self {
            HeaderV::External { dst, .. } => dst,
            HeaderV::Internal { dst, .. } => dst,
        }
    }

    /// Well-formed headers carry fixed-width account identifiers, a
    /// valid external bit string whose unused low bits are zero, and an
    /// amount the wire can hold.
    pub open spec fn wf(self) -> bool {
        match self {
            HeaderV::External { src, dst } => dst.wf() && (match src {
                ExtAddrV::Absent => true,
                ExtAddrV::External { bit_len, data } => bit_len < 512 && data.len() == (bit_len
                    + 7) / 8 && (bit_len % 8 == 0 || (data.len() > 0 && data[data.len() - 1] & (
                0xFFu8 >> ((bit_len % 8) as u8)) == 0)),
            }),
            HeaderV::Internal { src, dst, value, .. } => src.wf() && dst.wf() && value
                < MAX_CURRENCY,
        }
    }
}

/// Mathematical model of a message: header, optional state-init record
/// (as its wire bytes), optional body tree (as its wire bytes).
pub struct MsgV {
    pub header: HeaderV,
    pub init: Option<Seq<u8>>,
    pub body: Option<Seq<u8>>,
}

/// The header of a message: external for messages entering the chain
/// from outside, internal for contract-to-contract messages. An internal
/// header that named no source carries the all-zero standard address.
#[derive(Debug)]
pub enum MessageHeader {
    External { src: ExternalAddress, dst: InternalAddress },
    Internal { src: InternalAddress, dst: InternalAddress, value: u128, ihr_disabled: bool, bounce: bool },
}

impl Clone for MessageHeader {
    fn clone(&self) -> (r: Self)
        ensures
            r@ == self@,
    {
        match self {
            MessageHeader::External { src, dst } => MessageHeader::External {
                src: src.clone(),
                dst: dst.clone(),
            },
            MessageHeader::Internal { src, dst, value, ihr_disabled, bounce } => MessageHeader::Internal {
                src: src.clone(),
                dst: dst.clone(),
                value: *value,
                ihr_disabled: *ihr_disabled,
                bounce: *bounce,
            },
        }
    }
}

impl View for MessageHeader {
    type V = HeaderV;

    open spec fn view(&self) -> HeaderV {
        match self {
            MessageHeader::External { src, dst } => HeaderV::External { src: src@, dst: dst@ },
            MessageHeader::Internal { src, dst, value, ihr_disabled, bounce } => HeaderV::Internal {
                src: src@,
                dst: dst@,
                value: *value as int,
                ihr_disabled: *ihr_disabled,
                bounce: *bounce,
            },
        }
    }
}

impl MessageHeader {
    pub open spec fn wf(&self) -> bool {
        self@.wf()
    }

    /// The destination address of the header.
    pub fn dst_address(&self) -> (r: InternalAddress)
        ensures
            r@ == self@.dst(),
    {
        match self {
            MessageHeader::External { dst, .. } => dst.clone(),
            MessageHeader::Internal { dst, .. } => dst.clone(),
        }
    }
}

/// A message in structured form: one of the four variants arises from
/// which header kind it carries and whether a state-init record is
/// attached (a deploy carries one, a call does not).
#[derive(Debug)]
pub struct Message {
    pub header: MessageHeader,
    pub init: Option<StateInitData>,
    pub body: Option<Vec<u8>>,
}

impl Message {
    /// The model over which the wire names speak: the state-init is
    /// abstracted to its record wire bytes.
    pub open spec fn model(self) -> MsgV {
        MsgV {
            header: self.header@,
            init: match self.init {
                Some(i) => Some(init_wire(i@.record())),
                None => None,
            },
            body: opt_view_owned(self.body),
        }
    }

    /// Well-formed messages hold canonical trees, so serialization is
    /// owed and parsing recovers them exactly.
    pub open spec fn wf(self) -> bool {
        &&& self.header.wf()
        &&& match self.init {
            Some(i) => i@.wf(),
            None => true,
        }
        &&& opt_canon(opt_view_owned(self.body))
    }
}

// What the serializer computes from a message model: the canonical wire
// bytes of the message and its content-addressed identifier, the digest
// of the message's tree representation. A model fixes both: the logical
// clock and creation time of an internal header are emitted as zero, and
// its routing fees as empty, so the bytes are a function of the model
// alone.

/// The wire bytes of the message a model describes.
pub uninterp spec fn msg_wire(m: MsgV) -> Seq<u8>;

/// The content-addressed identifier of the message a model describes.
pub uninterp spec fn msg_id(m: MsgV) -> Seq<u8>;

/// The header encoded in message wire bytes, if they parse as a message
/// whose header kind this crate models.
pub uninterp spec fn wire_header(b: Seq<u8>) -> Option<HeaderV>;

/// The state-init record (as record wire bytes) attached to the message
/// the bytes encode: `None` when the bytes do not parse, `Some(None)`
/// when the message carries no record.
pub uninterp spec fn wire_init(b: Seq<u8>) -> Option<Option<Seq<u8>>>;

/// The body tree (as canonical wire bytes) carried by the message the
/// bytes encode: `None` when the bytes do not parse, `Some(None)` when
/// the body is empty.
pub uninterp spec fn wire_body(b: Seq<u8>) -> Option<Option<Seq<u8>>>;

/// Whether the tree the bytes encode is the empty tree: no data bits
/// and no references. The wire format cannot distinguish an empty body
/// tree from an absent body, so an emitted empty body reads back as
/// absent.
pub uninterp spec fn tree_empty(b: Seq<u8>) -> bool;

/// How an optional body tree reads back from the wire: an absent or
/// empty body as absent, any other body as its canonical bytes.
pub open spec fn body_on_wire(ob: Option<Seq<u8>>) -> Option<Seq<u8>> {
    match ob {
        Some(bb) => if tree_empty(bb) {
            None
        } else {
            Some(canon_tree(bb))
        },
        None => None,
    }
}

/// Whether an optional attached state-init is the wire form of canonical
/// components, so that parsing it back recovers those bytes.
pub open spec fn init_bytes_wf(oi: Option<Seq<u8>>) -> bool {
    match oi {
        Some(ib) => exists|rv: RecordV|
            rv.wf() && ib == init_wire(rv) && parsed_init(ib) == Some(rv),
        None => true,
    }
}

/// The models the emitters can produce: a well-formed header, a
/// canonical attached record and a canonical body. The wire names are
/// pinned on these models alone.
pub open spec fn emittable(mv: MsgV) -> bool {
    mv.header.wf() && init_bytes_wf(mv.init) && opt_canon(mv.body)
}

/// The collaborator's internal-address union, carried opaquely between
/// the conversion helpers and the emitters.
#[verifier::external_type_specification]
#[verifier::external_body]
pub struct ExIntAddr(IntAddr);

/// The collaborator's external-address form, carried opaquely.
#[verifier::external_type_specification]
#[verifier::external_body]
pub struct ExExtAddr(ExtAddr);

/// The collaborator's slice range, one half of an owned body slice.
#[verifier::external_type_specification]
#[verifier::external_body]
pub struct ExCellSliceRange(everscale_types::cell::CellSliceRange);

/// The collaborator's message record, generic in header and body forms.
#[verifier::external_type_specification]
#[verifier::external_body]
#[verifier::reject_recursive_types(I)]
#[verifier::reject_recursive_types(B)]
pub struct ExBaseMessage<I, B>(BaseMessage<I, B>);

/// Relies on `everscale_types::models::StdAddr::new` and the variant
/// address record. Conversion tail shared by the emitters; reached only
/// from trusted bodies, whose requires give the fixed account width that
/// the standard form's key construction demands.
#[verifier::external_body]
pub(crate) fn to_int_addr(a: &InternalAddress) -> (r: IntAddr)
    requires
        a@.account().len() == ACCOUNT_ID_LEN,
{
    match a {
        InternalAddress::Standard { workchain, account } => IntAddr::Std(StdAddr::new(*workchain, HashBytes::from_slice(account))),
        InternalAddress::Variant { workchain, account } => IntAddr::Var(VarAddr { anycast: None, address_len: everscale_types::num::Uint9::new(8 * account.len() as u16), workchain: *workchain, address: account.clone() }),
    }
}

/// Conversion tail shared by the parsers; the anycast field is dropped.
/// Reached only from trusted bodies.
#[verifier::external_body]
pub(crate) fn from_int_addr(a: IntAddr) -> InternalAddress {
    match a {
        IntAddr::Std(s) => InternalAddress::Standard { workchain: s.workchain, account: s.address.0.to_vec() },
        IntAddr::Var(v) => InternalAddress::Variant { workchain: v.workchain, account: v.address },
    }
}

/// Conversion tail shared by the parsers. Reached only from trusted
/// bodies.
#[verifier::external_body]
pub(crate) fn from_ext_src(a: Option<ExtAddr>) -> ExternalAddress {
    match a {
        None => ExternalAddress::Absent,
        Some(e) => ExternalAddress::External { bit_len: e.data_bit_len.into_inner(), data: e.data },
    }
}

/// Relies on `everscale_types::boc::Boc::decode` and
/// `everscale_types::cell::DynCell::parse` loading the collaborator's
/// message record. Parsing tail shared by the three parsers; reached
/// only from trusted bodies.
#[verifier::external_body]
pub(crate) fn parse_msg(b: &Vec<u8>) -> Result<
    BaseMessage<MsgInfo, everscale_types::cell::CellSliceParts>,
    SdkError,
> {
    let cell = Boc::decode(b).map_err(|_| decode_error())?;
    cell.parse().map_err(|_| decode_error())
}

/// Relies on `everscale_types::models::BaseMessage` with an
/// `everscale_types::models::ExtInMsgInfo` header being stored by
/// `everscale_types::cell::CellBuilder::build_from`, then
/// `everscale_types::boc::Boc::encode` for the wire bytes and
/// `everscale_types::cell::DynCell::repr_hash` for the identifier; the
/// attached record is read back with `everscale_types::boc::BocRepr::decode`
/// and the body tree with `everscale_types::boc::Boc::decode`. The import
/// fee is emitted as empty; an exotic body root is refused, since only
/// an ordinary cell can be sliced into a message. Loading an emitted
/// message recovers the header, the record bytes (when those were a
/// canonical record) and the body, a non-empty body in canonical bytes
/// and an empty one as absent.
#[verifier::external_body]
pub(crate) fn emit_external(
    src: &ExternalAddress,
    dst: &InternalAddress,
    init: Option<&Vec<u8>>,
    body: Option<&Vec<u8>>,
) -> (r: Result<(Vec<u8>, Vec<u8>), SdkError>)
    requires
        src.wf(),
        dst@.account().len() == ACCOUNT_ID_LEN,
    ensures
        r matches Ok(p) ==> p.0@ == msg_wire(
            MsgV {
                header: HeaderV::External { src: src@, dst: dst@ },
                init: opt_view(init),
                body: opt_view(body),
            },
        ) && p.1@ == msg_id(
            MsgV {
                header: HeaderV::External { src: src@, dst: dst@ },
                init: opt_view(init),
                body: opt_view(body),
            },
        ) && p.1@.len() == 32 && tree_ok(p.0@),
        r matches Ok(p) ==> wire_header(p.0@) == Some(HeaderV::External { src: src@, dst: dst@ })
            && wire_body(p.0@) == Some(
            match opt_view(body) {
                Some(bb) => if tree_empty(bb) {
                    None
                } else {
                    Some(canon_tree(bb))
                },
                None => None,
            },
        ) && (init_bytes_wf(
            opt_view(init),
        ) ==> wire_init(p.0@) == Some(opt_view(init))),
        (opt_tree_ok(opt_view(body)) && (init matches Some(b) ==> parsed_init(b@) matches Some(q)))
            ==> r matches Ok(p),
        r matches Err(e) ==> e matches SdkError::DecodeError { .. },
{
    let src_a = match src {
        ExternalAddress::Absent => None,
        ExternalAddress::External { bit_len, data } => ExtAddr::new(*bit_len, data.clone()),
    };
    let info = MsgInfo::ExtIn(ExtInMsgInfo { src: src_a, dst: to_int_addr(dst), import_fee: everscale_types::num::Tokens::ZERO });
    emit_with_info(info, init, body)
}

/// Relies on `everscale_types::models::BaseMessage` with an
/// `everscale_types::models::IntMsgInfo` header, as for the external
/// emitter. The bounced flag, fees, logical time and creation time are
/// emitted as zero.
#[verifier::external_body]
pub(crate) fn emit_internal(
    src: &InternalAddress,
    dst: &InternalAddress,
    value: u128,
    ihr_disabled: bool,
    bounce: bool,
    init: Option<&Vec<u8>>,
    body: Option<&Vec<u8>>,
) -> (r: Result<(Vec<u8>, Vec<u8>), SdkError>)
    requires
        src@.account().len() == ACCOUNT_ID_LEN,
        dst@.account().len() == ACCOUNT_ID_LEN,
        value < MAX_CURRENCY,
    ensures
        r matches Ok(p) ==> p.0@ == msg_wire(
            MsgV {
                header: HeaderV::Internal {
                    src: src@,
                    dst: dst@,
                    value: value as int,
                    ihr_disabled,
                    bounce,
                },
                init: opt_view(init),
                body: opt_view(body),
            },
        ) && p.1@ == msg_id(
            MsgV {
                header: HeaderV::Internal {
                    src: src@,
                    dst: dst@,
                    value: value as int,
                    ihr_disabled,
                    bounce,
                },
                init: opt_view(init),
                body: opt_view(body),
            },
        ) && p.1@.len() == 32 && tree_ok(p.0@),
        r matches Ok(p) ==> wire_header(p.0@) == Some(
            HeaderV::Internal { src: src@, dst: dst@, value: value as int, ihr_disabled, bounce },
        ) && wire_body(p.0@) == Some(
            match opt_view(body) {
                Some(bb) => if tree_empty(bb) {
                    None
                } else {
                    Some(canon_tree(bb))
                },
                None => None,
            },
        ) && (init_bytes_wf(
            opt_view(init),
        ) ==> wire_init(p.0@) == Some(opt_view(init))),
        (opt_tree_ok(opt_view(body)) && (init matches Some(b) ==> parsed_init(b@) matches Some(q)))
            ==> r matches Ok(p),
        r matches Err(e) ==> e matches SdkError::DecodeError { .. },
{
    let info = MsgInfo::Int(IntMsgInfo {
        ihr_disabled, bounce, bounced: false, src: to_int_addr(src), dst: to_int_addr(dst),
        value: everscale_types::models::CurrencyCollection::new(value),
        ihr_fee: everscale_types::num::Tokens::ZERO, fwd_fee: everscale_types::num::Tokens::ZERO,
        created_lt: 0, created_at: 0,
    });
    emit_with_info(info, init, body)
}

/// The collaborator's message-header union, carried opaquely between the
/// two emitters and their shared tail.
#[verifier::external_type_specification]
#[verifier::external_body]
pub struct ExMsgInfo(MsgInfo);

/// Relies on `everscale_types::cell::CellBuilder::build_from` storing a
/// `everscale_types::models::BaseMessage`, `everscale_types::boc::Boc` for
/// tree bytes and `everscale_types::boc::BocRepr` for the attached
/// record. Shared tail of the two emitters above; reached only from them.
#[verifier::external_body]
fn emit_with_info(
    info: MsgInfo,
    init: Option<&Vec<u8>>,
    body: Option<&Vec<u8>>,
) -> Result<(Vec<u8>, Vec<u8>), SdkError> {
    let init_v: Option<everscale_types::models::StateInit> = match init {
        Some(b) => Some(BocRepr::decode(b).map_err(|_| decode_error())?),
        None => None,
    };
    let body_c = match crate::codec::decode_opt(body)? {
        Some(cell) => cell,
        None => everscale_types::cell::Cell::empty_cell(),
    };
    let body_s = body_c.as_slice().map_err(|_| decode_error())?;
    let msg = BaseMessage { info, init: init_v, body: body_s, layout: None };
    let cell = CellBuilder::build_from(&msg).map_err(|_| crate::codec::internal_error())?;
    Ok((Boc::encode(&cell), cell.repr_hash().0.to_vec()))
}

/// Relies on `everscale_types::boc::Boc::decode` and
/// `everscale_types::cell::DynCell::parse` loading a
/// `everscale_types::models::BaseMessage`: the decoded header fields are
/// handed back in this crate's form. A message with an outbound-external
/// header carries no destination this crate models and is rejected as
/// `InvalidData`; the anycast field, fees and timestamps are dropped.
#[verifier::external_body]
pub(crate) fn parse_header(b: &Vec<u8>) -> (r: Result<MessageHeader, SdkError>)
    ensures
        r matches Ok(h) ==> wire_header(b@) == Some(h@),
        (r matches Ok(h)) == (wire_header(b@) matches Some(x)),
        r matches Ok(h) ==> (forall|mv: MsgV|
            b@ == msg_wire(mv) && emittable(mv) ==> h@ == mv.header),
        (exists|mv: MsgV| b@ == msg_wire(mv) && emittable(mv)) ==> r matches Ok(h),
        r matches Err(e) ==> (e matches SdkError::DecodeError { .. } || e matches
            SdkError::InvalidData { .. }),
{
    match parse_msg(b)?.info {
        MsgInfo::ExtIn(i) => Ok(MessageHeader::External { src: from_ext_src(i.src), dst: from_int_addr(i.dst) }),
        MsgInfo::Int(i) => Ok(MessageHeader::Internal {
            src: from_int_addr(i.src), dst: from_int_addr(i.dst), value: i.value.tokens.into_inner(),
            ihr_disabled: i.ihr_disabled, bounce: i.bounce,
        }),
        MsgInfo::ExtOut(_) => Err(SdkError::InvalidData { msg: "Wrong message type (extOut)".to_string() }),
    }
}

/// Relies on the same message loading as the header parser;
/// `everscale_types::boc::BocRepr::encode` re-serializes the attached
/// state-init record, so on bytes this crate emitted from canonical
/// components the record bytes come back exactly.
#[verifier::external_body]
pub(crate) fn parse_init_part(b: &Vec<u8>) -> (r: Result<Option<Vec<u8>>, SdkError>)
    ensures
        r matches Ok(o) ==> wire_init(b@) == Some(opt_view_owned(o)),
        (r matches Ok(o)) == (wire_init(b@) matches Some(x)),
        r matches Ok(o) ==> (forall|mv: MsgV|
            b@ == msg_wire(mv) && emittable(mv) ==> opt_view_owned(o) == mv.init),
        (exists|mv: MsgV| b@ == msg_wire(mv) && emittable(mv)) ==> r matches Ok(o),
        r matches Err(e) ==> e matches SdkError::DecodeError { .. },
{
    match parse_msg(b)?.init {
        Some(init) => Ok(Some(BocRepr::encode(&init).map_err(|_| decode_error())?)),
        None => Ok(None),
    }
}

/// Relies on the same message loading as the header parser; the body
/// slice is rebuilt into a tree with
/// `everscale_types::cell::CellBuilder::store_slice` and re-encoded with
/// `everscale_types::boc::Boc::encode`, so a non-empty canonical body
/// this crate emitted comes back exactly; an empty body reads as absent.
#[verifier::external_body]
pub(crate) fn parse_body_part(b: &Vec<u8>) -> (r: Result<Option<Vec<u8>>, SdkError>)
    ensures
        r matches Ok(o) ==> wire_body(b@) == Some(opt_view_owned(o)) && opt_canon(
            opt_view_owned(o),
        ),
        (r matches Ok(o)) == (wire_body(b@) matches Some(x)),
        r matches Ok(o) ==> (forall|mv: MsgV|
            b@ == msg_wire(mv) && emittable(mv) && ((mv.body matches Some(x)) == (o matches
            Some(y))) ==> opt_view_owned(o) == mv.body),
        (exists|mv: MsgV| b@ == msg_wire(mv) && emittable(mv)) ==> r matches Ok(o),
        r matches Err(e) ==> e matches SdkError::DecodeError { .. },
{
    let (body_cell, range) = parse_msg(b)?.body;
    let slice = range.apply(&body_cell).map_err(|_| decode_error())?;
    if slice.is_empty() {
        return Ok(None);
    }
    let mut builder = CellBuilder::new();
    builder.store_slice(slice).map_err(|_| decode_error())?;
    let rebuilt = builder.build().map_err(|_| decode_error())?;
    Ok(Some(Boc::encode(&rebuilt)))
}

} // verus!
