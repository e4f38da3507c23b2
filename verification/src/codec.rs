use vstd::prelude::*;
use crate::errors::SdkError;
use everscale_types::boc::Boc;
use everscale_types::boc::BocRepr;
use everscale_types::cell::CellBuilder;
use everscale_types::cell::CellFamily;
use everscale_types::cell::HashBytes;
use everscale_types::dict::Dict;
use everscale_types::models::SpecialFlags;
use everscale_types::models::StateInit;
use everscale_types::num::SplitDepth;

verus! {

// The cell-tree codec is an external collaborator: trees are read from and
// written to wire bytes, and a tree has a content-addressing digest. This
// crate carries every tree as its wire bytes; the names below stand for
// what the codec computes from those bytes, and the wrappers here are the
// only places the collaborator is called for tree and state-init work.

/// Whether the bytes are a well-formed single-root cell tree whose root
/// is an ordinary cell. Exotic roots (pruned branches, merkle proofs,
/// library references) cannot be sliced into messages or records, so
/// they do not count as trees here.
pub uninterp spec fn tree_ok(b: Seq<u8>) -> bool;

/// The canonical re-serialization of a well-formed tree's bytes.
pub uninterp spec fn canon_tree(b: Seq<u8>) -> Seq<u8>;

/// The full content of a state-init record, in plain values: the
/// optional split depth, the optional special (tick, tock) flags, and
/// the three component trees as wire bytes.
pub struct RecordV {
    pub split_depth: Option<int>,
    pub tick_tock: Option<(bool, bool)>,
    pub code: Option<Seq<u8>>,
    pub data: Option<Seq<u8>>,
    pub library: Option<Seq<u8>>,
}

impl RecordV {
    /// The component trees are canonical, the library is a dictionary
    /// root, and the split depth is in the wire's documented range.
    pub open spec fn wf(self) -> bool {
        &&& opt_canon(self.code)
        &&& opt_canon(self.data)
        &&& opt_canon(self.library)
        &&& opt_lib_ok(self.library)
        &&& split_ok(self.split_depth)
    }
}

/// Whether an optional split depth is in the wire's documented range.
pub open spec fn split_ok(d: Option<int>) -> bool {
    match d {
        Some(v) => 1 <= v <= 30,
        None => true,
    }
}

/// The record model of exec-level record parts.
pub open spec fn record_v(
    split_depth: Option<u8>,
    tick_tock: Option<(bool, bool)>,
    code: Option<Seq<u8>>,
    data: Option<Seq<u8>>,
    library: Option<Seq<u8>>,
) -> RecordV {
    RecordV {
        split_depth: match split_depth {
            Some(d) => Some(d as int),
            None => None,
        },
        tick_tock,
        code,
        data,
        library,
    }
}

/// The digest of the state-init record: the contract identity derived
/// from it.
pub uninterp spec fn init_hash(r: RecordV) -> Seq<u8>;

/// The wire bytes of the state-init record.
pub uninterp spec fn init_wire(r: RecordV) -> Seq<u8>;

/// The content of the state-init record the bytes encode, if they
/// encode one this crate can hold (ordinary component trees, a
/// dictionary-rooted library, a split depth in range); trees in
/// canonical bytes.
pub uninterp spec fn parsed_init(b: Seq<u8>) -> Option<RecordV>;

/// Whether the bytes are exactly the tree of a well-formed library
/// dictionary root, with no content beyond the dictionary structure:
/// only such a tree can stand as a state-init's library, so that the
/// stored record holds the root byte for byte.
pub uninterp spec fn lib_ok(b: Seq<u8>) -> bool;

/// The data tree with the given public key embedded at its reserved slot.
pub uninterp spec fn data_with_key(data: Option<Seq<u8>>, key: Seq<u8>) -> Seq<u8>;

/// The public key embedded in the data tree at its reserved slot, if any.
pub uninterp spec fn embedded_key(data: Seq<u8>) -> Option<Seq<u8>>;

/// View of an optional borrowed byte buffer.
pub open spec fn opt_view(o: Option<&Vec<u8>>) -> Option<Seq<u8>> {
    match o {
        Some(b) => Some(b@),
        None => None,
    }
}

/// View of an owned optional byte buffer.
pub open spec fn opt_view_owned(o: Option<Vec<u8>>) -> Option<Seq<u8>> {
    match o {
        Some(b) => Some(b@),
        None => None,
    }
}

pub open spec fn opt_tree_ok(o: Option<Seq<u8>>) -> bool {
    match o {
        Some(b) => tree_ok(b),
        None => true,
    }
}

/// Whether an optional library tree is a well-formed dictionary root.
pub open spec fn opt_lib_ok(o: Option<Seq<u8>>) -> bool {
    match o {
        Some(b) => lib_ok(b),
        None => true,
    }
}

/// Whether an optional tree is held in canonical bytes.
pub open spec fn opt_canon(o: Option<Seq<u8>>) -> bool {
    match o {
        Some(b) => tree_ok(b) && canon_tree(b) == b,
        None => true,
    }
}

pub(crate) fn decode_error() -> (r: SdkError)
    ensures
        r matches SdkError::DecodeError { .. },
{
    SdkError::DecodeError { msg: "Malformed cell tree".to_string() }
}

pub(crate) fn internal_error() -> (r: SdkError)
    ensures
        r matches SdkError::InternalError { .. },
{
    SdkError::InternalError { msg: "Cell tree serialization failed".to_string() }
}

/// Relies on `everscale_types::boc::Boc::decode`, which returns a cell
/// exactly when the bytes are a well-formed single-root tree, on
/// `everscale_types::cell::CellDescriptor::is_exotic` to refuse exotic
/// roots, and on `everscale_types::boc::Boc::encode`: re-encoding the
/// decoded tree is a pure function of the bytes and a fixed point of
/// itself.
#[verifier::external_body]
pub(crate) fn canonicalize_tree(b: &Vec<u8>) -> (r: Result<Vec<u8>, SdkError>)
    ensures
        r matches Ok(c) ==> tree_ok(b@) && c@ == canon_tree(b@) && tree_ok(c@) && canon_tree(c@)
            == c@,
        r matches Err(e) ==> e matches SdkError::DecodeError { .. },
        (r matches Ok(c)) == tree_ok(b@),
{
    let cell = Boc::decode(b).map_err(|_| decode_error())?;
    if cell.descriptor().is_exotic() {
        return Err(decode_error());
    }
    Ok(Boc::encode(&cell))
}

/// The collaborator's 32-byte hash word, a dictionary key type.
#[verifier::external_type_specification]
#[verifier::external_body]
pub struct ExHashBytes(HashBytes);

/// The collaborator's library entry, a dictionary value type.
#[verifier::external_type_specification]
#[verifier::external_body]
pub struct ExSimpleLib(everscale_types::models::SimpleLib);

/// The collaborator's dictionary, carried opaquely between helpers.
#[verifier::external_type_specification]
#[verifier::external_body]
#[verifier::reject_recursive_types(K)]
#[verifier::reject_recursive_types(V)]
pub struct ExDict<K, V>(Dict<K, V>);

/// The collaborator's cell handle, carried opaquely between helpers.
#[verifier::external_type_specification]
#[verifier::external_body]
pub struct ExCell(everscale_types::cell::Cell);

/// The collaborator's state-init record, carried opaquely between the
/// loading helper and the wrappers that store it.
#[verifier::external_type_specification]
#[verifier::external_body]
pub struct ExStateInit(StateInit);

/// Relies on `everscale_types::boc::Boc::decode`: decodes an optional
/// tree, refusing an exotic root. Shared tail of the record wrappers
/// below; reached only from trusted bodies.
#[verifier::external_body]
pub(crate) fn decode_opt(o: Option<&Vec<u8>>) -> Result<Option<everscale_types::cell::Cell>, SdkError> {
    match o {
        Some(b) => {
            let cell = Boc::decode(b).map_err(|_| decode_error())?;
            if cell.descriptor().is_exotic() {
                return Err(decode_error());
            }
            Ok(Some(cell))
        }
        None => Ok(None),
    }
}

/// Relies on `everscale_types::dict::Dict::load_from_root_ext` for the
/// library dictionary, `everscale_types::num::SplitDepth::new` and
/// `everscale_types::models::SpecialFlags`, and composes the
/// collaborator's state-init record from decoded components. A library
/// root whose cell holds anything beyond the loaded dictionary
/// structure is rejected, as is a split depth outside the wire's 1..=30
/// range. Shared tail of the record wrappers below; reached only from
/// trusted bodies.
#[verifier::external_body]
pub(crate) fn load_init(
    split_depth: Option<u8>,
    tick_tock: Option<(bool, bool)>,
    code: Option<&Vec<u8>>,
    data: Option<&Vec<u8>>,
    library: Option<&Vec<u8>>,
) -> Result<StateInit, SdkError> {
    let split_depth = match split_depth {
        Some(d) if (1..=30).contains(&d) => Some(SplitDepth::new(d).map_err(|_| decode_error())?),
        Some(_) => return Err(decode_error()),
        None => None,
    };
    let special = tick_tock.map(|(tick, tock)| SpecialFlags { tick, tock });
    let libraries = match decode_opt(library)? {
        Some(root) => load_lib_root(root)?,
        None => Dict::new(),
    };
    Ok(StateInit { split_depth, special, code: decode_opt(code)?, data: decode_opt(data)?, libraries })
}

/// Relies on `everscale_types::dict::Dict::load_from_root_ext`: loads
/// the library dictionary from its root cell, refusing a root with
/// content beyond the dictionary structure (the load would otherwise
/// store a trimmed copy). Shared tail of `load_init`; reached only from
/// trusted bodies.
#[verifier::external_body]
pub(crate) fn load_lib_root(root: everscale_types::cell::Cell) -> Result<
    Dict<HashBytes, everscale_types::models::SimpleLib>,
    SdkError,
> {
    let mut slice = root.as_slice().map_err(|_| decode_error())?;
    let dict = Dict::load_from_root_ext(&mut slice, &mut everscale_types::cell::Cell::empty_context()).map_err(|_| decode_error())?;
    if !slice.is_empty() {
        return Err(decode_error());
    }
    Ok(dict)
}

/// Relies on `everscale_types::boc::Boc::decode` for each component,
/// `everscale_types::dict::Dict::load_from_root_ext` for the library
/// dictionary, `everscale_types::cell::CellBuilder::build_from` on
/// `everscale_types::models::StateInit` (a record of a few bits and at
/// most three references, so building cannot overflow a cell),
/// `everscale_types::cell::DynCell::repr_hash` for the 32-byte record
/// digest, and `everscale_types::boc::Boc::encode` for the record's wire
/// bytes, which are the canonical serialization of the record and parse
/// back to the given content when the trees were themselves canonical.
/// Loading validates each part, so composing succeeds exactly when the
/// trees parse as ordinary roots, the library is a dictionary root and
/// the split depth is in range.
#[verifier::external_body]
pub(crate) fn encode_init(
    split_depth: Option<u8>,
    tick_tock: Option<(bool, bool)>,
    code: Option<&Vec<u8>>,
    data: Option<&Vec<u8>>,
    library: Option<&Vec<u8>>,
) -> (r: Result<(Vec<u8>, Vec<u8>), SdkError>)
    ensures
        r matches Ok(p) ==> p.0@ == init_wire(
            record_v(split_depth, tick_tock, opt_view(code), opt_view(data), opt_view(library)),
        ) && tree_ok(p.0@) && p.1@ == init_hash(
            record_v(split_depth, tick_tock, opt_view(code), opt_view(data), opt_view(library)),
        ) && p.1@.len() == 32,
        r matches Ok(p) ==> ((opt_canon(opt_view(code)) && opt_canon(opt_view(data)) && opt_canon(
            opt_view(library),
        )) ==> parsed_init(p.0@) == Some(
            record_v(split_depth, tick_tock, opt_view(code), opt_view(data), opt_view(library)),
        )),
        (r matches Ok(p)) == (opt_tree_ok(opt_view(code)) && opt_tree_ok(opt_view(data))
            && opt_tree_ok(opt_view(library)) && (match library {
            Some(b) => lib_ok(b@),
            None => true,
        }) && split_ok(
            record_v(
                split_depth,
                tick_tock,
                opt_view(code),
                opt_view(data),
                opt_view(library),
            ).split_depth,
        )),
        r matches Err(e) ==> e matches SdkError::DecodeError { .. },
{
    let init = load_init(split_depth, tick_tock, code, data, library)?;
    let cell = CellBuilder::build_from(&init).map_err(|_| internal_error())?;
    Ok((Boc::encode(&cell), cell.repr_hash().0.to_vec()))
}

/// Relies on `everscale_types::boc::Boc::decode`,
/// `everscale_types::cell::DynCell::parse` loading
/// `everscale_types::models::StateInit`, `everscale_types::boc::Boc::encode`
/// for the code and data components and for the library dictionary's
/// root, and `everscale_types::num::SplitDepth::into_bit_len`. The
/// returned trees are re-encodings of decoded ordinary cells, hence
/// canonical; a record holding an exotic component or a split depth
/// outside 1..=30 is outside this crate's record shape and rejected.
#[verifier::external_body]
pub(crate) fn split_init(b: &Vec<u8>) -> (r: Result<
    (Option<u8>, Option<(bool, bool)>, Option<Vec<u8>>, Option<Vec<u8>>, Option<Vec<u8>>),
    SdkError,
>)
    ensures
        r matches Ok(p) ==> parsed_init(b@) == Some(
            record_v(p.0, p.1, opt_view_owned(p.2), opt_view_owned(p.3), opt_view_owned(p.4)),
        ) && opt_canon(opt_view_owned(p.2)) && opt_canon(opt_view_owned(p.3)) && opt_canon(
            opt_view_owned(p.4),
        ) && split_ok(record_v(p.0, p.1, None, None, None).split_depth),
        (r matches Ok(p)) == (parsed_init(b@) matches Some(q)),
        r matches Err(e) ==> e matches SdkError::DecodeError { .. },
{
    let cell = Boc::decode(b).map_err(|_| decode_error())?;
    let init: StateInit = cell.parse().map_err(|_| decode_error())?;
    let split_depth = match init.split_depth.map(|d| d.into_bit_len() as u8) {
        Some(d) if (1..=30).contains(&d) => Some(d),
        Some(_) => return Err(decode_error()),
        None => None,
    };
    let tick_tock = init.special.map(|f| (f.tick, f.tock));
    let code = encode_ordinary_opt(init.code)?;
    let data = encode_ordinary_opt(init.data)?;
    let library = encode_ordinary_opt(init.libraries.into_root())?;
    Ok((split_depth, tick_tock, code, data, library))
}

/// Relies on `everscale_types::cell::CellDescriptor::is_exotic` and
/// `everscale_types::boc::Boc::encode`: re-encodes an optional ordinary
/// cell, refusing an exotic one. Shared tail of `split_init`; reached
/// only from trusted bodies.
#[verifier::external_body]
pub(crate) fn encode_ordinary_opt(c: Option<everscale_types::cell::Cell>) -> Result<
    Option<Vec<u8>>,
    SdkError,
> {
    match c {
        Some(cell) => {
            if cell.descriptor().is_exotic() {
                return Err(decode_error());
            }
            Ok(Some(Boc::encode(&cell)))
        }
        None => Ok(None),
    }
}

/// Relies on `everscale_types::boc::Boc::decode`,
/// `everscale_types::dict::Dict::set` placing the 32-byte key at the
/// reserved slot (key 0) of the data dictionary, and
/// `everscale_types::cell::CellBuilder::build_from` writing the updated
/// dictionary back as the data tree. The dictionary stores each key-value
/// pair it was given, so the embedded key of the result is the given one.
#[verifier::external_body]
pub(crate) fn insert_pubkey_data(data: Option<&Vec<u8>>, key: &Vec<u8>) -> (r: Result<
    Vec<u8>,
    SdkError,
>)
    requires
        key@.len() == 32,
    ensures
        r matches Ok(nd) ==> nd@ == data_with_key(opt_view(data), key@) && tree_ok(nd@)
            && canon_tree(nd@) == nd@ && embedded_key(nd@) == Some(key@),
        data matches None ==> r matches Ok(nd),
        (exists|d0: Option<Seq<u8>>, k0: Seq<u8>| opt_view(data) == Some(data_with_key(d0, k0)))
            ==> r matches Ok(nd),
        r matches Err(e) ==> e matches SdkError::DecodeError { .. },
{
    let mut dict: Dict<u64, HashBytes> = match data {
        Some(b) => Boc::decode(b).map_err(|_| decode_error())?.parse().map_err(|_| decode_error())?,
        None => Dict::new(),
    };
    dict.set(0u64, HashBytes::from_slice(key)).map_err(|_| decode_error())?;
    let cell = CellBuilder::build_from(&dict).map_err(|_| decode_error())?;
    Ok(Boc::encode(&cell))
}

/// Relies on `everscale_types::boc::Boc::decode` and
/// `everscale_types::dict::Dict::get` reading the reserved slot (key 0)
/// of the data dictionary: reading a slot returns exactly what was last
/// stored there, so a data tree produced by the embedding wrapper yields
/// the embedded key.
#[verifier::external_body]
pub(crate) fn extract_pubkey_data(data: &Vec<u8>) -> (r: Result<Option<Vec<u8>>, SdkError>)
    ensures
        r matches Ok(o) ==> opt_view_owned(o) == embedded_key(data@),
        (exists|d0: Option<Seq<u8>>, k0: Seq<u8>| data@ == data_with_key(d0, k0)) ==> r matches Ok(
            o,
        ),
        r matches Err(e) ==> e matches SdkError::DecodeError { .. },
{
    let dict: Dict<u64, HashBytes> =
        Boc::decode(data).map_err(|_| decode_error())?.parse().map_err(|_| decode_error())?;
    match dict.get(0u64).map_err(|_| decode_error())? {
        Some(k) => Ok(Some(k.0.to_vec())),
        None => Ok(None),
    }
}

} // verus!
