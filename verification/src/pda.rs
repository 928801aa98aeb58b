use vstd::prelude::*;

use crate::state::accounts::Pubkey;

verus! {

/// What the derived-address search returns for the seeds
/// `["multisig_config", multisig_key]` under `program_id`: the derived
/// config address with its bump seed, or nothing when no bump seed yields a
/// valid derived address. The result is a deterministic function of the two
/// keys alone.
pub uninterp spec fn pda_config_of(multisig_key: Seq<u8>, program_id: Seq<u8>) -> Option<
    (Seq<u8>, u8),
>;

/// Relies on `solana_address::Address::try_find_program_address`: the
/// derived address and bump seed depend on the seeds and the program
/// identity alone; a returned address is always 32 bytes; and the search
/// reports failure as `None` instead of panicking.
#[verifier::external_body]
fn derive_config_pda(multisig_key: &Pubkey, program_id: &Pubkey) -> (r: Option<(Pubkey, u8)>)
    requires
        program_id@.len() == 32,
    ensures
        (r matches Some(d) ==> (pda_config_of(multisig_key@, program_id@) matches Some(e) && d.0@
            == e.0 && d.1 == e.1 && d.0@.len() == 32)),
        (r is None ==> pda_config_of(multisig_key@, program_id@) is None),
{
    let pid = solana_address::Address::try_from(program_id.bytes.as_slice()).unwrap();
    let seeds: [&[u8]; 2] = [b"multisig_config", multisig_key.bytes.as_slice()];
    solana_address::Address::try_find_program_address(&seeds, &pid).map(
        |found: (solana_address::Address, u8)| (Pubkey { bytes: found.0.to_bytes().to_vec() }, found.1),
    )
}

/// Recompute the expected config address for a multisig root. The derived
/// address binds a config record to its root without a stored pointer:
/// callers must supply exactly this address.
pub fn derive_config_address(multisig_key: &Pubkey, program_id: &Pubkey) -> (r: Option<
    (Pubkey, u8),
>)
    requires
        program_id@.len() == 32,
    ensures
        (r matches Some(d) ==> (pda_config_of(multisig_key@, program_id@) matches Some(e) && d.0@
            == e.0 && d.1 == e.1 && d.0@.len() == 32)),
        (r is None ==> pda_config_of(multisig_key@, program_id@) is None),
{
    derive_config_pda(multisig_key, program_id)
}

} // verus!
