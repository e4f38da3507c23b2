use vstd::prelude::*;
use crate::address::ACCOUNT_ID_LEN;
use crate::address::InternalAddress;
use crate::address::make_msg_address;
use crate::address::selects_standard_form;
use crate::codec::RecordV;
use crate::codec::canon_tree;
use crate::codec::canonicalize_tree;
use crate::codec::data_with_key;
use crate::codec::embedded_key;
use crate::codec::encode_init;
use crate::codec::extract_pubkey_data;
use crate::codec::init_hash;
use crate::codec::init_wire;
use crate::codec::insert_pubkey_data;
use crate::codec::lib_ok;
use crate::codec::opt_canon;
use crate::codec::opt_lib_ok;
use crate::codec::opt_view_owned;
use crate::codec::parsed_init;
use crate::codec::record_v;
use crate::codec::split_init;
use crate::codec::split_ok;
use crate::codec::tree_ok;
use crate::errors::SdkError;

verus! {

/// View of an optional split depth.
pub open spec fn opt_u8_view(o: Option<u8>) -> Option<int> {
    match o {
        Some(d) => Some(d as int),
        None => None,
    }
}

/// Mathematical model of a contract image: the full content of its
/// state-init record, and its derived identity.
pub struct ImageV {
    pub split_depth: Option<int>,
    pub tick_tock: Option<(bool, bool)>,
    pub code: Option<Seq<u8>>,
    pub data: Option<Seq<u8>>,
    pub library: Option<Seq<u8>>,
    pub id: Seq<u8>,
}

impl ImageV {
    /// The state-init record the image holds.
    pub open spec fn record(self) -> RecordV {
        RecordV {
            split_depth: self.split_depth,
            tick_tock: self.tick_tock,
            code: self.code,
            data: self.data,
            library: self.library,
        }
    }

    /// The identity is always the digest of the current state-init; the
    /// record content is held in this crate's canonical shape.
    pub open spec fn wf(self) -> bool {
        &&& self.id == init_hash(self.record())
        &&& self.id.len() == ACCOUNT_ID_LEN
        &&& self.record().wf()
    }
}

/// The content of a state-init record: the optional split depth and
/// special (tick, tock) flags, and the three component trees as
/// canonical wire bytes. Obtained by consuming a [`ContractImage`] when
/// a deploy message is built.
#[derive(Debug)]
pub struct StateInitData {
    pub split_depth: Option<u8>,
    pub tick_tock: Option<(bool, bool)>,
    pub code: Option<Vec<u8>>,
    pub data: Option<Vec<u8>>,
    pub library: Option<Vec<u8>>,
}

/// Mathematical model of [`StateInitData`].
pub struct InitV {
    pub split_depth: Option<int>,
    pub tick_tock: Option<(bool, bool)>,
    pub code: Option<Seq<u8>>,
    pub data: Option<Seq<u8>>,
    pub library: Option<Seq<u8>>,
}

impl Clone for StateInitData {
    fn clone(&self) -> (r: Self)
        ensures
            r@ == self@,
    {
        StateInitData {
            split_depth: self.split_depth,
            tick_tock: self.tick_tock,
            code: clone_opt_bytes(&self.code),
            data: clone_opt_bytes(&self.data),
            library: clone_opt_bytes(&self.library),
        }
    }
}

impl View for StateInitData {
    type V = InitV;

    open spec fn view(&self) -> InitV {
        InitV {
            split_depth: opt_u8_view(self.split_depth),
            tick_tock: self.tick_tock,
            code: opt_view_owned(self.code),
            data: opt_view_owned(self.data),
            library: opt_view_owned(self.library),
        }
    }
}

impl InitV {
    /// The state-init record these parts compose.
    pub open spec fn record(self) -> RecordV {
        RecordV {
            split_depth: self.split_depth,
            tick_tock: self.tick_tock,
            code: self.code,
            data: self.data,
            library: self.library,
        }
    }

    pub open spec fn wf(self) -> bool {
        self.record().wf()
    }

    /// The wire bytes of the state-init record these parts compose.
    pub open spec fn wire(self) -> Seq<u8> {
        init_wire(self.record())
    }
}

/// A contract's initial state (its state-init record content, trees as
/// canonical wire bytes) together with its content-addressed identity.
///
/// The identity is recomputed atomically with every mutation of the
/// underlying data: there is no reachable state in which `id` is stale,
/// and a failed mutation leaves the image unchanged.
#[derive(Debug)]
pub struct ContractImage {
    split_depth: Option<u8>,
    tick_tock: Option<(bool, bool)>,
    code: Option<Vec<u8>>,
    data: Option<Vec<u8>>,
    library: Option<Vec<u8>>,
    id: Vec<u8>,
}

/// Clone an optional byte buffer, keeping its view.
pub(crate) fn clone_opt_bytes(o: &Option<Vec<u8>>) -> (r: Option<Vec<u8>>)
    ensures
        opt_view_owned(r) == opt_view_owned(*o),
{
    match o {
        Some(b) => Some(b.clone()),
        None => None,
    }
}

impl Clone for ContractImage {
    fn clone(&self) -> (r: Self)
        ensures
            r@ == self@,
    {
        ContractImage {
            split_depth: self.split_depth,
            tick_tock: self.tick_tock,
            code: clone_opt_bytes(&self.code),
            data: clone_opt_bytes(&self.data),
            library: clone_opt_bytes(&self.library),
            id: self.id.clone(),
        }
    }
}

impl View for ContractImage {
    type V = ImageV;

    closed spec fn view(&self) -> ImageV {
        ImageV {
            split_depth: opt_u8_view(self.split_depth),
            tick_tock: self.tick_tock,
            code: opt_view_owned(self.code),
            data: opt_view_owned(self.data),
            library: opt_view_owned(self.library),
            id: self.id@,
        }
    }
}

/// Canonicalize an optional tree, rejecting malformed bytes.
fn canonicalize_opt(o: Option<&Vec<u8>>) -> (r: Result<Option<Vec<u8>>, SdkError>)
    ensures
        r matches Ok(c) ==> opt_canon(opt_view_owned(c)) && (match (o, c) {
            (Some(b), Some(cb)) => tree_ok(b@) && cb@ == canon_tree(b@),
            (None, None) => true,
            _ => false,
        }),
        (r matches Ok(c)) == (match o {
            Some(b) => tree_ok(b@),
            None => true,
        }),
        r matches Err(e) ==> e matches SdkError::DecodeError { .. },
{
    match o {
        Some(b) => Ok(Some(canonicalize_tree(b)?)),
        None => Ok(None),
    }
}

impl ContractImage {
    pub open spec fn wf(&self) -> bool {
        self@.wf()
    }

    /// Create an image from the serialized code tree and optional data
    /// and library trees, with no split depth and no special flags.
    /// Each input must be a well-formed single-root tree and the library
    /// a dictionary root; a malformed one is rejected with
    /// `DecodeError`. The identity is the digest of the composed
    /// state-init record.
    pub fn from_code_data_and_library(
        code: &Vec<u8>,
        data: Option<&Vec<u8>>,
        library: Option<&Vec<u8>>,
    ) -> (r: Result<ContractImage, SdkError>)
        ensures
            r matches Ok(img) ==> img.wf() && img@.code == Some(canon_tree(code@)) && img@.data
                == (match data {
                Some(b) => Some(canon_tree(b@)),
                None => None::<Seq<u8>>,
            }) && img@.library == (match library {
                Some(b) => Some(canon_tree(b@)),
                None => None::<Seq<u8>>,
            }) && (img@.split_depth matches None) && (img@.tick_tock matches None),
            (r matches Ok(img)) == (tree_ok(code@) && (data matches Some(b) ==> tree_ok(b@)) && (
            match library {
                Some(b) => tree_ok(b@) && lib_ok(canon_tree(b@)),
                None => true,
            })),
            r matches Err(e) ==> e matches SdkError::DecodeError { .. },
    {
        let code_c = canonicalize_tree(code)?;
        let data_c = canonicalize_opt(data)?;
        let library_c = canonicalize_opt(library)?;
        Self::from_parts(None, None, Some(code_c), data_c, library_c)
    }

    /// Create an empty image: no code, no data, no library.
    pub fn new() -> (r: Result<ContractImage, SdkError>)
        ensures
            r matches Ok(img) ==> img.wf() && (img@.code matches None) && (img@.data matches None)
                && (img@.library matches None) && (img@.split_depth matches None) && (
            img@.tick_tock matches None),
            r matches Ok(img),
    {
        Self::from_parts(None, None, None, None, None)
    }

    /// Compose canonical record parts into an image, deriving the
    /// identity.
    fn from_parts(
        split_depth: Option<u8>,
        tick_tock: Option<(bool, bool)>,
        code: Option<Vec<u8>>,
        data: Option<Vec<u8>>,
        library: Option<Vec<u8>>,
    ) -> (r: Result<ContractImage, SdkError>)
        requires
            opt_canon(opt_view_owned(code)),
            opt_canon(opt_view_owned(data)),
            opt_canon(opt_view_owned(library)),
        ensures
            r matches Ok(img) ==> img.wf() && img@.record() == record_v(
                split_depth,
                tick_tock,
                opt_view_owned(code),
                opt_view_owned(data),
                opt_view_owned(library),
            ),
            (r matches Ok(img)) == (opt_lib_ok(opt_view_owned(library)) && split_ok(
                opt_u8_view(split_depth),
            )),
            r matches Err(e) ==> e matches SdkError::DecodeError { .. },
    {
        let (_wire, id) = encode_init(
            split_depth,
            tick_tock,
            code.as_ref(),
            data.as_ref(),
            library.as_ref(),
        )?;
        Ok(ContractImage { split_depth, tick_tock, code, data, library, id })
    }

    /// Create an image from a serialized state-init record, splitting it
    /// into its content; the identity is the digest of the record
    /// recomposed from that content.
    pub fn from_state_init(state_init: &Vec<u8>) -> (r: Result<ContractImage, SdkError>)
        ensures
            r matches Ok(img) ==> img.wf() && parsed_init(state_init@) == Some(img@.record()),
            parsed_init(state_init@) matches None ==> r matches Err(e),
            (parsed_init(state_init@) matches Some(p) && opt_lib_ok(p.library)) ==> r matches Ok(
                img,
            ),
            r matches Err(e) ==> e matches SdkError::DecodeError { .. },
    {
        let (split_depth, tick_tock, code, data, library) = split_init(state_init)?;
        Self::from_parts(split_depth, tick_tock, code, data, library)
    }

    /// Create an image from a serialized state-init record, then embed
    /// the given public key in its data tree.
    pub fn from_state_init_and_key(state_init: &Vec<u8>, pub_key: &Vec<u8>) -> (r: Result<
        ContractImage,
        SdkError,
    >)
        requires
            pub_key@.len() == 32,
        ensures
            r matches Ok(img) ==> img.wf() && (parsed_init(state_init@) matches Some(p)
                && img@.code == p.code && img@.library == p.library && img@.split_depth
                == p.split_depth && img@.tick_tock == p.tick_tock && img@.data == Some(
                data_with_key(p.data, pub_key@),
            ) && embedded_key(data_with_key(p.data, pub_key@)) == Some(pub_key@)),
            (parsed_init(state_init@) matches Some(p) && opt_lib_ok(p.library) && (p.data matches
                None || (exists|d0: Option<Seq<u8>>, k0: Seq<u8>|
                p.data == Some(data_with_key(d0, k0))))) ==> r matches Ok(img),
            r matches Err(e) ==> e matches SdkError::DecodeError { .. },
    {
        let mut result = Self::from_state_init(state_init)?;
        result.set_public_key(pub_key)?;
        Ok(result)
    }

    /// Create an image from the wire bytes of a single tree holding a
    /// state-init record. The record's digest equals the digest of the
    /// tree itself, so this is the same derivation as
    /// [`ContractImage::from_state_init`].
    pub fn from_cell(cell: &Vec<u8>) -> (r: Result<ContractImage, SdkError>)
        ensures
            r matches Ok(img) ==> img.wf() && parsed_init(cell@) == Some(img@.record()),
            parsed_init(cell@) matches None ==> r matches Err(e),
            (parsed_init(cell@) matches Some(p) && opt_lib_ok(p.library)) ==> r matches Ok(img),
            r matches Err(e) ==> e matches SdkError::DecodeError { .. },
    {
        Self::from_state_init(cell)
    }

    /// The public key embedded in the data tree at its reserved slot;
    /// `None` when the image has no data tree or the slot is empty.
    pub fn get_public_key(&self) -> (r: Result<Option<Vec<u8>>, SdkError>)
        ensures
            r matches Ok(o) ==> opt_view_owned(o) == (match self@.data {
                Some(d) => embedded_key(d),
                None => None::<Seq<u8>>,
            }),
            self@.data matches None ==> r matches Ok(o) && o matches None,
            (exists|d0: Option<Seq<u8>>, k0: Seq<u8>| self@.data == Some(data_with_key(d0, k0)))
                ==> r matches Ok(o),
            r matches Err(e) ==> e matches SdkError::DecodeError { .. },
    {
        match &self.data {
            None => Ok(None),
            Some(d) => extract_pubkey_data(d),
        }
    }

    /// Embed the given public key at the data tree's reserved slot and
    /// recompute the identity before returning; on failure the image is
    /// left unchanged.
    pub fn set_public_key(&mut self, pub_key: &Vec<u8>) -> (r: Result<(), SdkError>)
        requires
            pub_key@.len() == 32,
        ensures
            r matches Ok(u) ==> final(self)@.code == old(self)@.code
                && final(self)@.library == old(self)@.library
                && final(self)@.split_depth == old(self)@.split_depth
                && final(self)@.tick_tock == old(self)@.tick_tock
                && final(self)@.data == Some(data_with_key(old(self)@.data, pub_key@))
                && embedded_key(data_with_key(old(self)@.data, pub_key@)) == Some(pub_key@)
                && final(self)@.id == init_hash(final(self)@.record())
                && final(self)@.id.len() == ACCOUNT_ID_LEN,
            (*old(self)).wf() && (r matches Ok(u)) ==> (*final(self)).wf(),
            ((*old(self)).wf() && (old(self)@.data matches None || (exists|
                d0: Option<Seq<u8>>,
                k0: Seq<u8>,
            | old(self)@.data == Some(data_with_key(d0, k0))))) ==> r matches Ok(u),
            r matches Err(e) ==> *final(self) == *old(self) && e matches SdkError::DecodeError {
                ..
            },
    {
        let new_data = match insert_pubkey_data(self.data.as_ref(), pub_key) {
            Ok(d) => d,
            Err(e) => {
                return Err(e);
            },
        };
        let (_wire, new_id) = match encode_init(
            self.split_depth,
            self.tick_tock,
            self.code.as_ref(),
            Some(&new_data),
            self.library.as_ref(),
        ) {
            Ok(p) => p,
            Err(e) => {
                return Err(e);
            },
        };
        self.data = Some(new_data);
        self.id = new_id;
        Ok(())
    }

    /// Replace the data tree with a re-encoded one produced by the ABI
    /// collaborator and recompute the identity atomically; on failure the
    /// image is left unchanged.
    pub fn update_data(&mut self, new_data: &Vec<u8>) -> (r: Result<(), SdkError>)
        ensures
            r matches Ok(u) ==> final(self)@.code == old(self)@.code
                && final(self)@.library == old(self)@.library
                && final(self)@.split_depth == old(self)@.split_depth
                && final(self)@.tick_tock == old(self)@.tick_tock
                && final(self)@.data == Some(canon_tree(new_data@))
                && final(self)@.id == init_hash(final(self)@.record())
                && final(self)@.id.len() == ACCOUNT_ID_LEN,
            (*old(self)).wf() && (r matches Ok(u)) ==> (*final(self)).wf(),
            (r matches Ok(u)) == (tree_ok(new_data@) && opt_tree_ok_spec(old(self)@.code)
                && opt_tree_ok_spec(old(self)@.library) && opt_lib_ok(old(self)@.library)
                && split_ok(old(self)@.split_depth)),
            r matches Err(e) ==> *final(self) == *old(self) && e matches SdkError::DecodeError { .. },
    {
        let data_c = match canonicalize_tree(new_data) {
            Ok(d) => d,
            Err(e) => {
                return Err(e);
            },
        };
        let (_wire, new_id) = match encode_init(
            self.split_depth,
            self.tick_tock,
            self.code.as_ref(),
            Some(&data_c),
            self.library.as_ref(),
        ) {
            Ok(p) => p,
            Err(e) => {
                return Err(e);
            },
        };
        self.data = Some(data_c);
        self.id = new_id;
        Ok(())
    }

    /// The serialized code tree; `InvalidData` when the image has none.
    pub fn get_serialized_code(&self) -> (r: Result<Vec<u8>, SdkError>)
        ensures
            r matches Ok(b) ==> self@.code == Some(b@),
            r matches Err(e) ==> self@.code matches None && e matches SdkError::InvalidData { .. },
            (r matches Ok(b)) == (self@.code matches Some(c)),
    {
        match &self.code {
            Some(c) => Ok(c.clone()),
            None => Err(SdkError::InvalidData { msg: "State init has no code".to_string() }),
        }
    }

    /// The serialized data tree; `InvalidData` when the image has none.
    pub fn get_serialized_data(&self) -> (r: Result<Vec<u8>, SdkError>)
        ensures
            r matches Ok(b) ==> self@.data == Some(b@),
            r matches Err(e) ==> self@.data matches None && e matches SdkError::InvalidData { .. },
            (r matches Ok(b)) == (self@.data matches Some(c)),
    {
        match &self.data {
            Some(d) => Ok(d.clone()),
            None => Err(SdkError::InvalidData { msg: "State init has no data".to_string() }),
        }
    }

    /// The wire bytes of the image's state-init record.
    pub fn serialize(&self) -> (r: Result<Vec<u8>, SdkError>)
        ensures
            r matches Ok(b) ==> b@ == init_wire(self@.record()) && tree_ok(b@),
            r matches Ok(b) ==> (self@.wf() ==> parsed_init(b@) == Some(self@.record())),
            (r matches Ok(b)) == (opt_tree_ok_spec(self@.code) && opt_tree_ok_spec(self@.data)
                && opt_tree_ok_spec(self@.library) && opt_lib_ok(self@.library) && split_ok(
                self@.split_depth,
            )),
            r matches Err(e) ==> e matches SdkError::DecodeError { .. },
    {
        let (wire, _id) = encode_init(
            self.split_depth,
            self.tick_tock,
            self.code.as_ref(),
            self.data.as_ref(),
            self.library.as_ref(),
        )?;
        Ok(wire)
    }

    /// Consume the image, yielding its state-init content for embedding
    /// into a deploy message.
    pub fn state_init(self) -> (r: StateInitData)
        ensures
            r@.record() == self@.record(),
    {
        StateInitData {
            split_depth: self.split_depth,
            tick_tock: self.tick_tock,
            code: self.code,
            data: self.data,
            library: self.library,
        }
    }

    /// The derived account identifier.
    pub fn account_id(&self) -> (r: Vec<u8>)
        ensures
            r@ == self@.id,
    {
        self.id.clone()
    }

    /// The contract's address in the given workchain: the compact
    /// standard encoding when the workchain id divided by 128
    /// (truncating) is zero, the variant encoding otherwise.
    pub fn msg_address(&self, workchain_id: i32) -> (r: InternalAddress)
        requires
            self@.id.len() == ACCOUNT_ID_LEN,
        ensures
            r@.workchain() == workchain_id as int,
            r@.account() == self@.id,
            selects_standard_form(workchain_id as int) ==> r@ matches
                crate::address::IntAddrV::Standard { .. },
            !selects_standard_form(workchain_id as int) ==> r@ matches
                crate::address::IntAddrV::Variant { .. },
            r.wf(),
    {
        make_msg_address(workchain_id, self.id.clone())
    }
}

/// Law: a contract's identity is a function of its initial state alone.
/// Two well-formed images holding byte-identical state-init records
/// carry the same identity, however each was built.
pub proof fn lemma_image_id_deterministic(a: ImageV, b: ImageV)
    requires
        a.wf(),
        b.wf(),
        a.record() == b.record(),
    ensures
        a.id == b.id,
{
}

/// `opt_tree_ok` restated over owned views, for contracts of this module.
pub open spec fn opt_tree_ok_spec(o: Option<Seq<u8>>) -> bool {
    crate::codec::opt_tree_ok(o)
}

} // verus!
