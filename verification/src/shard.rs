use vstd::prelude::*;
use crate::address::ACCOUNT_ID_LEN;
use crate::address::IntAddrV;
use crate::address::InternalAddress;
use crate::errors::SdkError;

verus! {

/// A shard descriptor: the workchain it belongs to and its tagged
/// prefix, a 64-bit word whose lowest set bit marks where the prefix
/// ends.
#[derive(Debug, Clone, PartialEq, Eq)]
pub struct ShardDescr {
    pub workchain_id: i32,
    pub shard: u64,
}

/// Whether `p` is the position of the lowest set bit of `s`.
pub open spec fn is_tag_pos(s: u64, p: u64) -> bool {
    p < 64 && (s >> p) & 1 == 1 && (forall|q: u64| q < p ==> (s >> q) & 1 == 0)
}

/// Whether the shard's prefix (the bits above its tag) is a prefix of
/// the given 64-bit address prefix: the shard owns the address.
pub open spec fn shard_contains(s: u64, prefix: u64) -> bool {
    exists|p: u64|
        is_tag_pos(s, p) && (p == 63 || (s >> ((p + 1) as u64)) == (prefix >> ((p + 1) as u64)))
}

/// The first 64 bits of an account identifier, big-endian.
pub open spec fn account_prefix(s: Seq<u8>) -> u64 {
    ((s[0] as u64) << 56) | ((s[1] as u64) << 48) | ((s[2] as u64) << 40) | ((s[3] as u64) << 32)
        | ((s[4] as u64) << 24) | ((s[5] as u64) << 16) | ((s[6] as u64) << 8) | (s[7] as u64)
}

/// Whether a descriptor owns an address: same workchain, and the
/// descriptor's tagged prefix covers the address's account prefix.
pub open spec fn descr_matches(d: ShardDescr, a: IntAddrV) -> bool {
    d.workchain_id as int == a.workchain() && shard_contains(d.shard, account_prefix(a.account()))
}

/// A tag position is unique: it is the lowest set bit.
proof fn lemma_tag_unique(s: u64, p1: u64, p2: u64)
    requires
        is_tag_pos(s, p1),
        is_tag_pos(s, p2),
    ensures
        p1 == p2,
{
    if p1 < p2 {
        assert((s >> p1) & 1 == 0);
    } else if p2 < p1 {
        assert((s >> p2) & 1 == 0);
    }
}

/// Decide whether the tagged prefix `shard` covers the address prefix.
pub fn shard_prefix_covers(shard: u64, prefix: u64) -> (r: bool)
    requires
        shard != 0,
    ensures
        r == shard_contains(shard, prefix),
{
    let mut p: u64 = 0;
    proof {
        assert(shard >> 0u64 == shard) by (bit_vector);
    }
    while p < 63 && (shard >> p) & 1 == 0
        invariant
            p < 64,
            shard >> p != 0,
            forall|q: u64| q < p ==> (shard >> q) & 1 == 0,
        decreases 64 - p,
    {
        proof {
            let x = shard >> p;
            assert(x != 0 && x & 1 == 0 ==> x >> 1u64 != 0) by (bit_vector);
            assert((shard >> p) >> 1u64 == shard >> ((p + 1) as u64)) by (bit_vector)
                requires
                    p < 63,
            ;
        }
        p = p + 1;
    }
    proof {
        assert((shard >> p) & 1 == 0 || (shard >> p) & 1 == 1) by (bit_vector);
        if (shard >> p) & 1 == 0 {
            assert((shard >> 63u64) & 1 == 0 && shard >> 63u64 != 0 ==> false) by (bit_vector);
            assert(false);
        }
        assert(is_tag_pos(shard, p));
    }
    let r = if p == 63 {
        true
    } else {
        (shard >> (p + 1)) == (prefix >> (p + 1))
    };
    proof {
        if r {
            assert(shard_contains(shard, prefix));
        } else {
            if shard_contains(shard, prefix) {
                let p2 = choose|p2: u64|
                    is_tag_pos(shard, p2) && (p2 == 63 || (shard >> ((p2 + 1) as u64)) == (prefix
                        >> ((p2 + 1) as u64)));
                lemma_tag_unique(shard, p, p2);
            }
        }
    }
    r
}

/// Law: the two descriptors that split a workchain in half are disjoint
/// and cover its whole prefix space: every address prefix is owned by
/// exactly one of them.
pub proof fn lemma_two_way_split_partition(prefix: u64)
    ensures
        shard_contains(0x4000000000000000u64, prefix) <==> !shard_contains(
            0xC000000000000000u64,
            prefix,
        ),
{
    let s1 = 0x4000000000000000u64;
    let s2 = 0xC000000000000000u64;
    assert forall|q: u64| q < 62 implies (s1 >> q) & 1 == 0 && (s2 >> q) & 1 == 0 by {
        assert(q < 62 ==> ((0x4000000000000000u64 >> q) & 1 == 0 && (0xC000000000000000u64 >> q)
            & 1 == 0)) by (bit_vector);
    }
    assert((0x4000000000000000u64 >> 62u64) & 1 == 1 && (0xC000000000000000u64 >> 62u64) & 1
        == 1) by (bit_vector);
    assert(is_tag_pos(s1, 62) && is_tag_pos(s2, 62));
    assert(0x4000000000000000u64 >> 63u64 == 0 && 0xC000000000000000u64 >> 63u64 == 1 && (prefix
        >> 63u64 == 0 || prefix >> 63u64 == 1)) by (bit_vector);
    if prefix >> 63u64 == 0 {
        assert(is_tag_pos(s1, 62) && (s1 >> ((62 + 1) as u64)) == (prefix >> ((62 + 1) as u64)));
        assert(shard_contains(s1, prefix));
        if shard_contains(s2, prefix) {
            let p2 = choose|p2: u64|
                is_tag_pos(s2, p2) && (p2 == 63 || (s2 >> ((p2 + 1) as u64)) == (prefix >> ((p2
                    + 1) as u64)));
            lemma_tag_unique(s2, p2, 62);
        }
    } else {
        assert(is_tag_pos(s2, 62) && (s2 >> ((62 + 1) as u64)) == (prefix >> ((62 + 1) as u64)));
        assert(shard_contains(s2, prefix));
        if shard_contains(s1, prefix) {
            let p2 = choose|p2: u64|
                is_tag_pos(s1, p2) && (p2 == 63 || (s1 >> ((p2 + 1) as u64)) == (prefix >> ((p2
                    + 1) as u64)));
            lemma_tag_unique(s1, p2, 62);
        }
    }
}

/// The first 64 bits of the account identifier, big-endian.
pub fn account_prefix_u64(account: &Vec<u8>) -> (r: u64)
    requires
        account@.len() >= 8,
    ensures
        r == account_prefix(account@),
{
    ((account[0] as u64) << 56u64) | ((account[1] as u64) << 48u64) | ((account[2] as u64)
        << 40u64) | ((account[3] as u64) << 32u64) | ((account[4] as u64) << 24u64) | ((account[5]
        as u64) << 16u64) | ((account[6] as u64) << 8u64) | (account[7] as u64)
}

impl ShardDescr {
    /// Whether this descriptor owns the address.
    pub fn matches_address(&self, address: &InternalAddress) -> (r: bool)
        requires
            address@.account().len() == ACCOUNT_ID_LEN,
            self.shard != 0,
        ensures
            r == descr_matches(*self, address@),
    {
        let account = address.account_id();
        let prefix = account_prefix_u64(&account);
        let wc = address.workchain_id();
        self.workchain_id == wc && shard_prefix_covers(self.shard, prefix)
    }
}

// Descriptors arrive as JSON objects; the two fields are read through
// one trusted wrapper, and everything after that (range checks, the
// hexadecimal shard form, the matching itself) is verified.

/// The shard field of a descriptor as JSON carries it: a number, or a
/// string holding a hexadecimal rendering.
#[derive(Debug, Clone)]
pub enum ShardField {
    Num(u64),
    Text(Vec<u8>),
}

/// Mathematical model of [`ShardField`].
pub enum ShardFieldV {
    Num(int),
    Text(Seq<u8>),
}

impl View for ShardField {
    type V = ShardFieldV;

    open spec fn view(&self) -> ShardFieldV {
        match self {
            ShardField::Num(n) => ShardFieldV::Num(*n as int),
            ShardField::Text(t) => ShardFieldV::Text(t@),
        }
    }
}

/// The two fields a shard-descriptor object holds, if it holds them:
/// its workchain id as a 64-bit integer, and its shard field.
pub uninterp spec fn shard_fields(v: serde_json::Value) -> Option<(int, ShardFieldV)>;

/// The declared JSON value type of the descriptor's wire form.
#[verifier::external_type_specification]
#[verifier::external_body]
pub struct ExValue(serde_json::Value);

/// Relies on `serde_json::Value::get`, `serde_json::Value::as_i64`,
/// `serde_json::Value::as_str` and `serde_json::Value::as_u64`: reads
/// the descriptor's `workchain_id` member as an integer and its `shard`
/// member as either a string (handed back as its bytes) or an unsigned
/// number.
#[verifier::external_body]
pub(crate) fn read_shard_fields(v: &serde_json::Value) -> (r: Option<(i64, ShardField)>)
    ensures
        r matches Some(p) ==> shard_fields(*v) == Some((p.0 as int, p.1@)),
        (r matches Some(p)) == (shard_fields(*v) matches Some(q)),
{
    let wc = v.get("workchain_id")?.as_i64()?;
    let sh = v.get("shard")?;
    if let Some(s) = sh.as_str() {
        Some((wc, ShardField::Text(s.as_bytes().to_vec())))
    } else {
        Some((wc, ShardField::Num(sh.as_u64()?)))
    }
}

/// The value of a hexadecimal digit, or a negative sentinel.
pub open spec fn hex_digit(c: u8) -> int {
    if 48 <= c <= 57 {
        c - 48
    } else if 97 <= c <= 102 {
        c - 87
    } else if 65 <= c <= 70 {
        c - 55
    } else {
        -1
    }
}

/// Whether the bytes are a non-empty hexadecimal rendering.
pub open spec fn hex_ok(s: Seq<u8>) -> bool {
    s.len() >= 1 && (forall|i: int| 0 <= i < s.len() ==> hex_digit(s[i]) >= 0)
}

/// The value of a hexadecimal rendering.
pub open spec fn hex_val(s: Seq<u8>) -> int
    decreases s.len(),
{
    if s.len() == 0 {
        0
    } else {
        hex_val(s.drop_last()) * 16 + hex_digit(s.last())
    }
}

/// Whether every byte is a hexadecimal digit and there is at least one.
pub fn is_hex(s: &Vec<u8>) -> (r: bool)
    ensures
        r == hex_ok(s@),
{
    if s.len() == 0 {
        return false;
    }
    let mut i: usize = 0;
    while i < s.len()
        invariant
            i <= s@.len(),
            forall|j: int| 0 <= j < i ==> hex_digit(s@[j]) >= 0,
        decreases s@.len() - i,
    {
        let c = s[i];
        let ok = (48 <= c && c <= 57) || (97 <= c && c <= 102) || (65 <= c && c <= 70);
        if !ok {
            return false;
        }
        i = i + 1;
    }
    true
}

/// The value of a hexadecimal prefix grows with its length: digits
/// only add value.
proof fn lemma_hex_val_nonneg(s: Seq<u8>, i: int)
    requires
        0 <= i <= s.len(),
        forall|k: int| 0 <= k < s.len() ==> hex_digit(s[k]) >= 0,
    ensures
        hex_val(s.take(i)) >= 0,
    decreases i,
{
    if i > 0 {
        lemma_hex_val_nonneg(s, i - 1);
        assert(s.take(i).drop_last() =~= s.take(i - 1));
        assert(s.take(i).last() == s[i - 1]);
    }
}

/// Taking one more digit multiplies the prefix value by the radix and
/// adds the digit.
proof fn lemma_hex_val_step(s: Seq<u8>, i: int)
    requires
        0 <= i < s.len(),
    ensures
        hex_val(s.take(i + 1)) == hex_val(s.take(i)) * 16 + hex_digit(s[i]),
{
    assert(s.take(i + 1).drop_last() =~= s.take(i));
    assert(s.take(i + 1).last() == s[i]);
}

/// A longer valid prefix is worth at least as much as a shorter one.
proof fn lemma_hex_val_mono(s: Seq<u8>, i: int, j: int)
    requires
        0 <= i <= j <= s.len(),
        forall|k: int| 0 <= k < s.len() ==> hex_digit(s[k]) >= 0,
    ensures
        hex_val(s.take(j)) >= hex_val(s.take(i)),
    decreases j - i,
{
    if j > i {
        lemma_hex_val_mono(s, i, j - 1);
        lemma_hex_val_step(s, j - 1);
        lemma_hex_val_nonneg(s, j - 1);
    }
}

/// The value of a hexadecimal rendering, when it fits 64 bits; `None`
/// on overflow.
pub(crate) fn hex_u64(s: &Vec<u8>) -> (r: Option<u64>)
    requires
        hex_ok(s@),
    ensures
        r matches Some(v) ==> v as int == hex_val(s@),
        (r matches Some(v)) == (hex_val(s@) < 0x10000000000000000),
{
    let mut acc: u64 = 0;
    let mut i: usize = 0;
    proof {
        assert(s@.take(0) =~= Seq::<u8>::empty());
    }
    while i < s.len()
        invariant
            i <= s@.len(),
            hex_ok(s@),
            acc as int == hex_val(s@.take(i as int)),
        decreases s@.len() - i,
    {
        let c = s[i];
        let d: u8 = if 48 <= c && c <= 57 {
            c - 48
        } else if 97 <= c && c <= 102 {
            c - 87
        } else {
            c - 55
        };
        proof {
            assert(hex_digit(s@[i as int]) >= 0);
            assert(d as int == hex_digit(s@[i as int]));
            lemma_hex_val_step(s@, i as int);
        }
        if acc > 0x0FFFFFFFFFFFFFFF {
            proof {
                lemma_hex_val_mono(s@, i as int + 1, s@.len() as int);
                assert(s@.take(s@.len() as int) =~= s@);
            }
            return None;
        }
        acc = acc * 16 + (d as u64);
        i = i + 1;
    }
    proof {
        assert(s@.take(s@.len() as int) =~= s@);
    }
    Some(acc)
}

/// The shard value a shard field denotes, if it denotes one.
pub open spec fn shard_field_value(f: ShardFieldV) -> Option<int> {
    match f {
        ShardFieldV::Num(n) => Some(n),
        ShardFieldV::Text(t) => if hex_ok(t) && hex_val(t) < 0x10000000000000000 {
            Some(hex_val(t))
        } else {
            None
        },
    }
}

/// The descriptor a JSON value denotes: its two fields read, the
/// workchain id within 32-bit range, the shard field decoded, and the
/// shard non-zero (a zero word has no tag bit).
pub open spec fn parsed_descr(v: serde_json::Value) -> Option<ShardDescr> {
    match shard_fields(v) {
        Some((wc, f)) => match shard_field_value(f) {
            Some(s) => if -0x80000000 <= wc < 0x80000000 && s != 0 {
                Some(ShardDescr { workchain_id: wc as i32, shard: s as u64 })
            } else {
                None
            },
            None => None,
        },
        None => None,
    }
}

/// Read a shard descriptor from its JSON form. Fails with `DecodeError`
/// when a field is missing or malformed or the workchain id overflows
/// its range, and with `InvalidData` when the shard word is zero and so
/// carries no tag.
pub fn shard_descr_from_json(v: &serde_json::Value) -> (r: Result<ShardDescr, SdkError>)
    ensures
        r matches Ok(d) ==> parsed_descr(*v) == Some(d) && d.shard != 0,
        (r matches Ok(d)) == (parsed_descr(*v) matches Some(x)),
    {
    let (wc, field) = match read_shard_fields(v) {
        Some(p) => p,
        None => {
            return Err(SdkError::DecodeError { msg: "Malformed shard descriptor".to_string() });
        },
    };
    if wc < -0x80000000i64 || wc >= 0x80000000i64 {
        return Err(SdkError::DecodeError { msg: "Workchain id out of range".to_string() });
    }
    let shard: u64 = match &field {
        ShardField::Num(n) => *n,
        ShardField::Text(t) => {
            if !is_hex(t) {
                return Err(SdkError::DecodeError { msg: "Malformed shard value".to_string() });
            }
            match hex_u64(t) {
                Some(s) => s,
                None => {
                    return Err(SdkError::DecodeError { msg: "Shard value out of range".to_string() });
                },
            }
        },
    };
    if shard == 0 {
        return Err(SdkError::InvalidData { msg: "Shard has no tag bit".to_string() });
    }
    Ok(ShardDescr { workchain_id: wc as i32, shard })
}

/// Whether the JSON value denotes a descriptor that owns the address.
pub open spec fn match_at(v: serde_json::Value, a: IntAddrV) -> bool {
    match parsed_descr(v) {
        Some(d) => descr_matches(d, a),
        None => false,
    }
}

/// Whether the JSON value denotes a descriptor that does not own the
/// address.
pub open spec fn no_match_at(v: serde_json::Value, a: IntAddrV) -> bool {
    match parsed_descr(v) {
        Some(d) => !descr_matches(d, a),
        None => false,
    }
}

/// Decide whether the shard a JSON descriptor describes owns the given
/// address: the descriptor's prefix must be a prefix of the address's
/// account prefix in the same workchain.
pub fn check_shard_match(shard_descr: &serde_json::Value, address: &InternalAddress) -> (r: Result<
    bool,
    SdkError,
>)
    requires
        address@.account().len() == ACCOUNT_ID_LEN,
    ensures
        r matches Ok(m) ==> (parsed_descr(*shard_descr) matches Some(d) && m == descr_matches(
            d,
            address@,
        )),
        (r matches Ok(m)) == (parsed_descr(*shard_descr) matches Some(x)),
{
    let descr = shard_descr_from_json(shard_descr)?;
    Ok(descr.matches_address(address))
}

/// Scan candidate descriptors in caller order and return the index of
/// the first whose shard owns the address; `None` when none does. A
/// descriptor that cannot be read fails the scan, as reading it alone
/// would.
pub fn find_matching_shard(shards: &Vec<serde_json::Value>, address: &InternalAddress) -> (r:
    Result<Option<usize>, SdkError>)
    requires
        address@.account().len() == ACCOUNT_ID_LEN,
    ensures
        r matches Ok(o) ==> (o matches Some(i) ==> i < shards@.len() && match_at(
            shards@[i as int],
            address@,
        ) && (forall|j: int| 0 <= j < i ==> no_match_at(shards@[j], address@))),
        r matches Ok(o) ==> (o matches None ==> forall|j: int|
            0 <= j < shards@.len() ==> no_match_at(shards@[j], address@)),
        r matches Err(e) ==> exists|j: int|
            0 <= j < shards@.len() && ((#[trigger] parsed_descr(shards@[j])) matches None),
{
    let mut i: usize = 0;
    while i < shards.len()
        invariant
            i <= shards@.len(),
            address@.account().len() == ACCOUNT_ID_LEN,
            forall|j: int| 0 <= j < i ==> no_match_at(shards@[j], address@),
        decreases shards@.len() - i,
    {
        if check_shard_match(&shards[i], address)? {
            return Ok(Some(i));
        }
        i = i + 1;
    }
    Ok(None)
}

} // verus!
