use vstd::prelude::*;

verus! {

/// Width of an account identifier in bytes (a fixed-width digest).
pub const ACCOUNT_ID_LEN: usize = 32;

/// Mathematical model of an internal (on-chain) address.
pub enum IntAddrV {
    Standard { workchain: int, account: Seq<u8> },
    Variant { workchain: int, account: Seq<u8> },
}

impl IntAddrV {
    pub open spec fn workchain(self) -> int {
        match self {
            IntAddrV::Standard { workchain, .. } => workchain,
            IntAddrV::Variant { workchain, .. } => workchain,
        }
    }

    pub open spec fn account(self) -> Seq<u8> {
        match self {
            IntAddrV::Standard { account, .. } => account,
            IntAddrV::Variant { account, .. } => account,
        }
    }

    pub open spec fn wf(self) -> bool {
        self.account().len() == ACCOUNT_ID_LEN
    }
}

/// An internal (on-chain) address: a workchain id and a fixed-width
/// account identifier.
///
/// The ledger admits two serializations: the compact `Standard` form,
/// legal only for workchains whose id fits one signed byte, and the
/// `Variant` form with a full 32-bit workchain id. Which form a message
/// must carry is decided by the workchain range (see
/// [`crate::image::ContractImage::msg_address`]); the network enforces
/// the choice, so the two forms are kept apart as variants.
#[derive(Debug)]
pub enum InternalAddress {
    Standard { workchain: i8, account: Vec<u8> },
    Variant { workchain: i32, account: Vec<u8> },
}

impl View for InternalAddress {
    type V = IntAddrV;

    open spec fn view(&self) -> IntAddrV {
        match self {
            InternalAddress::Standard { workchain, account } => IntAddrV::Standard {
                workchain: *workchain as int,
                account: account@,
            },
            InternalAddress::Variant { workchain, account } => IntAddrV::Variant {
                workchain: *workchain as int,
                account: account@,
            },
        }
    }
}

impl Clone for InternalAddress {
    fn clone(&self) -> (r: Self)
        ensures
            r@ == self@,
    {
        match self {
            InternalAddress::Standard { workchain, account } => InternalAddress::Standard {
                workchain: *workchain,
                account: account.clone(),
            },
            InternalAddress::Variant { workchain, account } => InternalAddress::Variant {
                workchain: *workchain,
                account: account.clone(),
            },
        }
    }
}

impl Clone for ExternalAddress {
    fn clone(&self) -> (r: Self)
        ensures
            r@ == self@,
    {
        match self {
            ExternalAddress::Absent => ExternalAddress::Absent,
            ExternalAddress::External { bit_len, data } => ExternalAddress::External {
                bit_len: *bit_len,
                data: data.clone(),
            },
        }
    }
}

impl InternalAddress {
    pub open spec fn wf(&self) -> bool {
        self@.wf()
    }

    /// The workchain id, widened to its full range.
    pub fn workchain_id(&self) -> (r: i32)
        ensures
            r as int == self@.workchain(),
    {
        match self {
            InternalAddress::Standard { workchain, .. } => *workchain as i32,
            InternalAddress::Variant { workchain, .. } => *workchain,
        }
    }

    /// The account identifier bytes.
    pub fn account_id(&self) -> (r: Vec<u8>)
        ensures
            r@ == self@.account(),
    {
        match self {
            InternalAddress::Standard { account, .. } => account.clone(),
            InternalAddress::Variant { account, .. } => account.clone(),
        }
    }

    /// The all-zero standard address of workchain 0, used as the resolved
    /// source when an internal message names no source.
    pub fn zero() -> (r: InternalAddress)
        ensures
            r@ == zero_addr_v(),
            r.wf(),
    {
        let mut account: Vec<u8> = Vec::new();
        let mut i: usize = 0;
        while i < ACCOUNT_ID_LEN
            invariant
                i <= ACCOUNT_ID_LEN,
                account@ =~= Seq::new(i as nat, |j: int| 0u8),
            decreases ACCOUNT_ID_LEN - i,
        {
            account.push(0u8);
            i = i + 1;
        }
        proof {
            assert(account@ =~= Seq::new(ACCOUNT_ID_LEN as nat, |i: int| 0u8));
        }
        InternalAddress::Standard { workchain: 0, account }
    }
}

/// The all-zero standard address model of workchain 0.
pub open spec fn zero_addr_v() -> IntAddrV {
    IntAddrV::Standard { workchain: 0, account: Seq::new(ACCOUNT_ID_LEN as nat, |i: int| 0u8) }
}

/// The address model the ledger requires for an account in a
/// workchain: the compact standard form when the id divided by 128
/// (truncating) is zero, the variant form otherwise.
pub open spec fn msg_address_v(workchain_id: int, account: Seq<u8>) -> IntAddrV {
    if selects_standard_form(workchain_id) {
        IntAddrV::Standard { workchain: workchain_id, account }
    } else {
        IntAddrV::Variant { workchain: workchain_id, account }
    }
}

/// Whether a workchain id selects the compact standard address form.
///
/// This mirrors truncating division of the id by 128 comparing equal to
/// zero: exactly the ids strictly between -128 and 128.
pub open spec fn selects_standard_form(workchain_id: int) -> bool {
    -128 < workchain_id < 128
}

/// Build the address of the given account in the given workchain,
/// selecting the encoding the ledger requires for that workchain range:
/// the compact standard form when the id divided by 128 (truncating)
/// is zero, the variant form otherwise.
pub fn make_msg_address(workchain_id: i32, account: Vec<u8>) -> (r: InternalAddress)
    requires
        account@.len() == ACCOUNT_ID_LEN,
    ensures
        selects_standard_form(workchain_id as int) ==> r@ == (IntAddrV::Standard {
            workchain: workchain_id as int,
            account: account@,
        }),
        !selects_standard_form(workchain_id as int) ==> r@ == (IntAddrV::Variant {
            workchain: workchain_id as int,
            account: account@,
        }),
        r@ == msg_address_v(workchain_id as int, account@),
        r.wf(),
        r@.workchain() == workchain_id as int,
        r@.account() == account@,
{
    if workchain_id > -128 && workchain_id < 128 {
        InternalAddress::Standard { workchain: workchain_id as i8, account }
    } else {
        InternalAddress::Variant { workchain: workchain_id, account }
    }
}

/// Mathematical model of an external address.
pub enum ExtAddrV {
    Absent,
    External { bit_len: int, data: Seq<u8> },
}

/// An external address: the source of a message sent from off-chain.
///
/// `Absent` is the usual choice for external inbound messages; `External`
/// carries an explicit bit string.
#[derive(Debug)]
pub enum ExternalAddress {
    Absent,
    External { bit_len: u16, data: Vec<u8> },
}

impl View for ExternalAddress {
    type V = ExtAddrV;

    open spec fn view(&self) -> ExtAddrV {
        match self {
            ExternalAddress::Absent => ExtAddrV::Absent,
            ExternalAddress::External { bit_len, data } => ExtAddrV::External {
                bit_len: *bit_len as int,
                data: data@,
            },
        }
    }
}

impl ExternalAddress {
    /// Well-formed external addresses carry exactly the bits they
    /// declare: the length fits the wire's field, the byte count
    /// matches, and the unused low bits of the last byte are zero, so
    /// the address reads back from the wire byte for byte.
    pub open spec fn wf(&self) -> bool {
        match self@ {
            ExtAddrV::Absent => true,
            ExtAddrV::External { bit_len, data } => bit_len < 512 && data.len() == (bit_len + 7)
                / 8 && (bit_len % 8 == 0 || (data.len() > 0 && data[data.len() - 1] & (0xFFu8 >> (
            (bit_len % 8) as u8)) == 0)),
        }
    }
}

} // verus!
