use vstd::prelude::*;

use crate::errors::MultisigError;
use crate::state::accounts::{Account, Pubkey};

verus! {

// ---------------------------------------------------------------------------
// Little-endian 64-bit integers inside a record's byte image.
// ---------------------------------------------------------------------------

/// The unsigned 64-bit value stored little-endian in the first 8 bytes of `s`.
pub open spec fn le_u64_of(s: Seq<u8>) -> u64 {
    (s[0] as u64) | ((s[1] as u64) << 8) | ((s[2] as u64) << 16) | ((s[3] as u64) << 24)
        | ((s[4] as u64) << 32) | ((s[5] as u64) << 40) | ((s[6] as u64) << 48)
        | ((s[7] as u64) << 56)
}

/// The 8-byte little-endian image of `v`.
pub open spec fn le_bytes_of(v: u64) -> Seq<u8> {
    seq![
        (v & 0xff) as u8,
        ((v >> 8) & 0xff) as u8,
        ((v >> 16) & 0xff) as u8,
        ((v >> 24) & 0xff) as u8,
        ((v >> 32) & 0xff) as u8,
        ((v >> 40) & 0xff) as u8,
        ((v >> 48) & 0xff) as u8,
        ((v >> 56) & 0xff) as u8,
    ]
}

/// Reading back the byte image of a value yields the value.
pub proof fn lemma_le_u64_of_le_bytes(v: u64)
    ensures
        le_bytes_of(v).len() == 8,
        le_u64_of(le_bytes_of(v)) == v,
{
    assert((((v & 0xff) as u8) as u64) | (((((v >> 8) & 0xff) as u8) as u64) << 8)
        | (((((v >> 16) & 0xff) as u8) as u64) << 16) | (((((v >> 24) & 0xff) as u8) as u64) << 24)
        | (((((v >> 32) & 0xff) as u8) as u64) << 32) | (((((v >> 40) & 0xff) as u8) as u64) << 40)
        | (((((v >> 48) & 0xff) as u8) as u64) << 48) | (((((v >> 56) & 0xff) as u8) as u64) << 56)
        == v) by (bit_vector);
}

/// Writing back the value read from an 8-byte buffer yields the buffer.
pub proof fn lemma_le_bytes_of_le_u64(s: Seq<u8>)
    requires
        s.len() == 8,
    ensures
        le_bytes_of(le_u64_of(s)) == s,
{
    let b0 = s[0] as u64;
    let b1 = s[1] as u64;
    let b2 = s[2] as u64;
    let b3 = s[3] as u64;
    let b4 = s[4] as u64;
    let b5 = s[5] as u64;
    let b6 = s[6] as u64;
    let b7 = s[7] as u64;
    let x = le_u64_of(s);
    assert(x == b0 | (b1 << 8) | (b2 << 16) | (b3 << 24) | (b4 << 32) | (b5 << 40) | (b6 << 48)
        | (b7 << 56));
    assert((x == b0 | (b1 << 8) | (b2 << 16) | (b3 << 24) | (b4 << 32) | (b5 << 40) | (b6 << 48)
        | (b7 << 56) && b0 < 256 && b1 < 256 && b2 < 256 && b3 < 256 && b4 < 256 && b5 < 256
        && b6 < 256 && b7 < 256) ==> ((x & 0xff) == b0 && ((x >> 8) & 0xff) == b1 && ((x >> 16)
        & 0xff) == b2 && ((x >> 24) & 0xff) == b3 && ((x >> 32) & 0xff) == b4 && ((x >> 40) & 0xff)
        == b5 && ((x >> 48) & 0xff) == b6 && ((x >> 56) & 0xff) == b7)) by (bit_vector);
    assert(le_bytes_of(x) =~= s);
}

/// Read the little-endian `u64` stored at `off` in `bytes`.
pub fn read_le_u64(bytes: &[u8], off: usize) -> (r: u64)
    requires
        off + 8 <= bytes@.len(),
    ensures
        r == le_u64_of(bytes@.subrange(off as int, off as int + 8)),
{
    let b0 = bytes[off];
    let b1 = bytes[off + 1];
    let b2 = bytes[off + 2];
    let b3 = bytes[off + 3];
    let b4 = bytes[off + 4];
    let b5 = bytes[off + 5];
    let b6 = bytes[off + 6];
    let b7 = bytes[off + 7];
    let r = (b0 as u64) | ((b1 as u64) << 8) | ((b2 as u64) << 16) | ((b3 as u64) << 24)
        | ((b4 as u64) << 32) | ((b5 as u64) << 40) | ((b6 as u64) << 48) | ((b7 as u64) << 56);
    proof {
        let s = bytes@.subrange(off as int, off as int + 8);
        assert(s[0] == b0 && s[1] == b1 && s[2] == b2 && s[3] == b3 && s[4] == b4 && s[5] == b5
            && s[6] == b6 && s[7] == b7);
    }
    r
}

/// Overwrite the 8 bytes at `off` in `bytes` with the little-endian image of
/// `v`, leaving every other byte in place.
pub fn write_le_u64(bytes: &mut Vec<u8>, off: usize, v: u64)
    requires
        off + 8 <= old(bytes)@.len(),
    ensures
        final(bytes)@.len() == old(bytes)@.len(),
        final(bytes)@.subrange(off as int, off as int + 8) == le_bytes_of(v),
        forall|i: int|
            0 <= i < old(bytes)@.len() && !(off <= i < off + 8) ==> final(bytes)@[i] == old(
                bytes,
            )@[i],
{
    let n: usize = bytes.len();
    proof {
        assert(off + 8 <= n);
        assert((v & 0xff) < 256 && ((v >> 8) & 0xff) < 256 && ((v >> 16) & 0xff) < 256 && ((v
            >> 24) & 0xff) < 256 && ((v >> 32) & 0xff) < 256 && ((v >> 40) & 0xff) < 256 && ((v
            >> 48) & 0xff) < 256 && ((v >> 56) & 0xff) < 256) by (bit_vector);
    }
    bytes[off] = (v & 0xff) as u8;
    bytes[off + 1] = ((v >> 8) & 0xff) as u8;
    bytes[off + 2] = ((v >> 16) & 0xff) as u8;
    bytes[off + 3] = ((v >> 24) & 0xff) as u8;
    bytes[off + 4] = ((v >> 32) & 0xff) as u8;
    bytes[off + 5] = ((v >> 40) & 0xff) as u8;
    bytes[off + 6] = ((v >> 48) & 0xff) as u8;
    bytes[off + 7] = ((v >> 56) & 0xff) as u8;
    proof {
        assert(final(bytes)@.subrange(off as int, off as int + 8) =~= le_bytes_of(v));
    }
}

/// Byte-for-byte equality of two buffers.
pub fn bytes_eq(a: &[u8], b: &[u8]) -> (r: bool)
    ensures
        r == (a@ == b@),
{
    if a.len() != b.len() {
        return false;
    }
    let n = a.len();
    let mut i: usize = 0;
    while i < n
        invariant
            n == a@.len() == b@.len(),
            i <= n,
            forall|j: int| 0 <= j < i ==> a@[j] == b@[j],
        decreases n - i,
    {
        if a[i] != b[i] {
            return false;
        }
        i = i + 1;
    }
    proof {
        assert(a@ =~= b@);
    }
    true
}

// ---------------------------------------------------------------------------
// The layout contract: every persisted record and every instruction payload
// is a fixed-size byte image, interpreted only after an exact length check.
// ---------------------------------------------------------------------------

/// Associates a record type with the exact byte length of its image. A buffer
/// may be interpreted as the type only if its length equals `spec_len`.
pub trait DataLen {
    /// The exact byte length of the record's image.
    spec fn spec_len() -> usize;

    /// Executable mirror of `spec_len`.
    fn data_len() -> (r: usize)
        ensures
            r == Self::spec_len(),
    ;
}

/// A liveness marker: whether a record's slot holds live domain data, as
/// opposed to zeroed or fresh storage.
pub trait Initialized: View {
    /// What the marker means over the record's view.
    spec fn spec_initialized(v: Self::V) -> bool;

    /// Executable mirror of `spec_initialized`.
    fn is_initialized(&self) -> (r: bool)
        ensures
            r == Self::spec_initialized(self@),
    ;
}

/// The checked-cast contract: a record type that can be loaded from, and
/// written back to, a byte buffer of exactly `spec_len` bytes. Loading is a
/// pure reinterpretation: writing a loaded record back yields the original
/// buffer byte for byte.
pub trait TypedView: DataLen + View + Sized {
    /// The shape every loaded record has: the structural facts the byte
    /// image forces, such as field widths and slot counts.
    spec fn spec_wf(v: Self::V) -> bool;

    /// The record read from a byte image of exactly `spec_len` bytes.
    spec fn spec_load(s: Seq<u8>) -> Self::V;

    /// The byte image of a record.
    spec fn spec_bytes(v: Self::V) -> Seq<u8>;

    /// Loading any full-length buffer yields a well-shaped record.
    proof fn lemma_load_wf(s: Seq<u8>)
        requires
            s.len() == Self::spec_len(),
        ensures
            Self::spec_wf(Self::spec_load(s)),
    ;

    /// A well-shaped record's byte image has exactly `spec_len` bytes.
    proof fn lemma_bytes_len(v: Self::V)
        requires
            Self::spec_wf(v),
        ensures
            Self::spec_bytes(v).len() == Self::spec_len(),
    ;

    /// The cast is a pure reinterpretation: viewing a loaded record as bytes
    /// yields the buffer it was loaded from, unchanged.
    proof fn lemma_bytes_of_load(s: Seq<u8>)
        requires
            s.len() == Self::spec_len(),
        ensures
            Self::spec_bytes(Self::spec_load(s)) == s,
    ;

    /// Interpret a buffer of exactly `spec_len` bytes as a record.
    fn load(bytes: &[u8]) -> (r: Self)
        requires
            bytes@.len() == Self::spec_len(),
        ensures
            r@ == Self::spec_load(bytes@),
            Self::spec_wf(r@),
    ;

    /// The record's backing bytes, for persistence or derivation-seed use.
    fn view_bytes(&self) -> (r: Vec<u8>)
        requires
            Self::spec_wf(self@),
        ensures
            r@ == Self::spec_bytes(self@),
    ;
}

// ---------------------------------------------------------------------------
// The account memory accessor: every read or write of account or instruction
// bytes goes through these length-checked (and, for persisted records,
// owner-checked) casts.
// ---------------------------------------------------------------------------

/// Interpret `bytes` as a `T` record, checking only the exact length.
pub fn load_acc_unchecked<T: TypedView>(bytes: &[u8]) -> (r: Result<T, MultisigError>)
    ensures
        bytes@.len() == T::spec_len() ==> (r matches Ok(t) && t@ == T::spec_load(bytes@)
            && T::spec_wf(t@)),
        bytes@.len() != T::spec_len() ==> (r matches Err(e) && e
            == MultisigError::InvalidAccountData),
{
    if bytes.len() != T::data_len() {
        return Err(MultisigError::InvalidAccountData);
    }
    Ok(T::load(bytes))
}

/// Interpret `bytes` as a `T` record, checking the exact length and the
/// initialization marker.
pub fn load_acc<T: TypedView + Initialized>(bytes: &[u8]) -> (r: Result<T, MultisigError>)
    ensures
        bytes@.len() != T::spec_len() ==> (r matches Err(e) && e
            == MultisigError::InvalidAccountData),
        bytes@.len() == T::spec_len() && !T::spec_initialized(T::spec_load(bytes@)) ==> (r matches
            Err(e) && e == MultisigError::Uninitialized),
        bytes@.len() == T::spec_len() && T::spec_initialized(T::spec_load(bytes@)) ==> (r matches
            Ok(t) && t@ == T::spec_load(bytes@) && T::spec_wf(t@)),
{
    let acc = load_acc_unchecked::<T>(bytes)?;
    if !acc.is_initialized() {
        return Err(MultisigError::Uninitialized);
    }
    Ok(acc)
}

/// `load_acc`, for a record the caller intends to mutate and write back with
/// `to_mut_bytes`. Exclusive write access is the caller's obligation: within
/// one transition at most one mutable view of a buffer may exist.
pub fn load_acc_mut<T: TypedView + Initialized>(bytes: &[u8]) -> (r: Result<T, MultisigError>)
    ensures
        bytes@.len() != T::spec_len() ==> (r matches Err(e) && e
            == MultisigError::InvalidAccountData),
        bytes@.len() == T::spec_len() && !T::spec_initialized(T::spec_load(bytes@)) ==> (r matches
            Err(e) && e == MultisigError::Uninitialized),
        bytes@.len() == T::spec_len() && T::spec_initialized(T::spec_load(bytes@)) ==> (r matches
            Ok(t) && t@ == T::spec_load(bytes@) && T::spec_wf(t@)),
{
    load_acc::<T>(bytes)
}

/// `load_acc_unchecked`, for a record the caller intends to mutate and write
/// back with `to_mut_bytes`.
pub fn load_acc_mut_unchecked<T: TypedView>(bytes: &[u8]) -> (r: Result<T, MultisigError>)
    ensures
        bytes@.len() == T::spec_len() ==> (r matches Ok(t) && t@ == T::spec_load(bytes@)
            && T::spec_wf(t@)),
        bytes@.len() != T::spec_len() ==> (r matches Err(e) && e
            == MultisigError::InvalidAccountData),
{
    load_acc_unchecked::<T>(bytes)
}

/// Interpret an instruction payload as a `T` record; a length mismatch is the
/// caller's error, not the account's.
pub fn load_ix_data<T: TypedView>(bytes: &[u8]) -> (r: Result<T, MultisigError>)
    ensures
        bytes@.len() == T::spec_len() ==> (r matches Ok(t) && t@ == T::spec_load(bytes@)
            && T::spec_wf(t@)),
        bytes@.len() != T::spec_len() ==> (r matches Err(e) && e
            == MultisigError::InvalidInstructionData),
{
    if bytes.len() != T::data_len() {
        return Err(MultisigError::InvalidInstructionData);
    }
    Ok(T::load(bytes))
}

/// A record's backing storage as raw bytes of exactly `T::spec_len` bytes.
pub fn to_bytes<T: TypedView>(data: &T) -> (r: Vec<u8>)
    requires
        T::spec_wf(data@),
    ensures
        r@ == T::spec_bytes(data@),
        r@.len() == T::spec_len(),
{
    proof {
        T::lemma_bytes_len(data@);
    }
    data.view_bytes()
}

/// Persist a record into the buffer it was loaded from: the buffer ends up
/// holding exactly the record's byte image.
pub fn to_mut_bytes<T: TypedView>(data: &T, bytes: &mut Vec<u8>)
    requires
        T::spec_wf(data@),
    ensures
        final(bytes)@ == T::spec_bytes(data@),
        final(bytes)@.len() == T::spec_len(),
{
    proof {
        T::lemma_bytes_len(data@);
    }
    *bytes = data.view_bytes();
}

/// Interpret a persisted account's data as a `T` record. The owner check
/// comes first: a record owned by another program is never interpreted.
pub fn try_from_account_info<T: TypedView>(program_id: &Pubkey, acc: &Account) -> (r: Result<
    T,
    MultisigError,
>)
    ensures
        acc.owner@ != program_id@ ==> (r matches Err(e) && e == MultisigError::IllegalOwner),
        acc.owner@ == program_id@ && acc.data@.len() != T::spec_len() ==> (r matches Err(e) && e
            == MultisigError::InvalidAccountData),
        acc.owner@ == program_id@ && acc.data@.len() == T::spec_len() ==> (r matches Ok(t) && t@
            == T::spec_load(acc.data@) && T::spec_wf(t@)),
{
    if !bytes_eq(acc.owner.bytes.as_slice(), program_id.bytes.as_slice()) {
        return Err(MultisigError::IllegalOwner);
    }
    load_acc_unchecked::<T>(acc.data.as_slice())
}

/// `try_from_account_info`, for a record the caller intends to mutate and
/// write back into the account's data with `to_mut_bytes`.
pub fn try_from_account_info_mut<T: TypedView>(program_id: &Pubkey, acc: &Account) -> (r: Result<
    T,
    MultisigError,
>)
    ensures
        acc.owner@ != program_id@ ==> (r matches Err(e) && e == MultisigError::IllegalOwner),
        acc.owner@ == program_id@ && acc.data@.len() != T::spec_len() ==> (r matches Err(e) && e
            == MultisigError::InvalidAccountData),
        acc.owner@ == program_id@ && acc.data@.len() == T::spec_len() ==> (r matches Ok(t) && t@
            == T::spec_load(acc.data@) && T::spec_wf(t@)),
{
    try_from_account_info::<T>(program_id, acc)
}

} // verus!
