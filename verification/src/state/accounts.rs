use vstd::prelude::*;

verus! {

/// A 32-byte account address or program identity.
#[derive(Clone, Debug)]
pub struct Pubkey {
    pub bytes: Vec<u8>,
}

impl View for Pubkey {
    type V = Seq<u8>;

    open spec fn view(&self) -> Seq<u8> {
        self.bytes@
    }
}

impl Pubkey {
    /// A key is exactly 32 bytes.
    pub open spec fn wf(&self) -> bool {
        self.bytes@.len() == 32
    }

    /// Byte-for-byte key equality.
    pub fn key_eq(&self, other: &Pubkey) -> (r: bool)
        ensures
            r == (self@ == other@),
    {
        crate::state::utils::bytes_eq(self.bytes.as_slice(), other.bytes.as_slice())
    }
}

/// One account slot as the invocation environment hands it over: its address,
/// the program that owns its record, and the record's bytes. The environment
/// grants each invocation exclusive, non-aliased access to any account it
/// declares mutable; within one transition at most one mutable view of the
/// data exists.
#[derive(Clone, Debug)]
pub struct Account {
    pub key: Pubkey,
    pub owner: Pubkey,
    pub data: Vec<u8>,
}

} // verus!
