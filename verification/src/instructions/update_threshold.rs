use vstd::prelude::*;

use crate::errors::MultisigError;
use crate::pda::{derive_config_address, pda_config_of};
use crate::state::accounts::{Account, Pubkey};
use crate::state::records::{
    config_members_from, spec_count_approvers, MultisigConfig, MultisigConfigView,
    INIT_MARKER_LIVE, MAX_MEMBERS, MULTISIG_CONFIG_LEN,
};
use crate::state::utils::{
    le_bytes_of, le_u64_of, lemma_le_bytes_of_le_u64, lemma_le_u64_of_le_bytes, load_ix_data,
    read_le_u64, try_from_account_info_mut, write_le_u64, DataLen, Initialized, TypedView,
};

verus! {

/// Byte length of the update-threshold payload: one 8-byte unsigned
/// integer, no padding tolerated.
pub const UPDATE_THRESHOLD_LEN: usize = 8;

/// The fixed-size payload of the update-threshold instruction.
#[derive(Clone, Copy, Debug, PartialEq, Eq, Structural)]
pub struct UpdateThreshold {
    pub min_threshold: u64,
}

impl View for UpdateThreshold {
    type V = u64;

    open spec fn view(&self) -> u64 {
        self.min_threshold
    }
}

impl DataLen for UpdateThreshold {
    open spec fn spec_len() -> usize {
        UPDATE_THRESHOLD_LEN
    }

    fn data_len() -> usize {
        UPDATE_THRESHOLD_LEN
    }
}

impl TypedView for UpdateThreshold {
    open spec fn spec_wf(v: u64) -> bool {
        true
    }

    open spec fn spec_load(s: Seq<u8>) -> u64 {
        le_u64_of(s)
    }

    open spec fn spec_bytes(v: u64) -> Seq<u8> {
        le_bytes_of(v)
    }

    proof fn lemma_load_wf(s: Seq<u8>) {
    }

    proof fn lemma_bytes_len(v: u64) {
    }

    proof fn lemma_bytes_of_load(s: Seq<u8>) {
        lemma_le_bytes_of_le_u64(s);
    }

    fn load(bytes: &[u8]) -> (r: Self) {
        let v = read_le_u64(bytes, 0);
        proof {
            assert(bytes@.subrange(0, 8) =~= bytes@);
        }
        UpdateThreshold { min_threshold: v }
    }

    fn view_bytes(&self) -> (r: Vec<u8>) {
        let v = self.min_threshold;
        proof {
            assert((v & 0xff) < 256 && ((v >> 8) & 0xff) < 256 && ((v >> 16) & 0xff) < 256 && ((v
                >> 24) & 0xff) < 256 && ((v >> 32) & 0xff) < 256 && ((v >> 40) & 0xff) < 256 && ((v
                >> 48) & 0xff) < 256 && ((v >> 56) & 0xff) < 256) by (bit_vector);
        }
        let mut out: Vec<u8> = Vec::new();
        out.push((v & 0xff) as u8);
        out.push(((v >> 8) & 0xff) as u8);
        out.push(((v >> 16) & 0xff) as u8);
        out.push(((v >> 24) & 0xff) as u8);
        out.push(((v >> 32) & 0xff) as u8);
        out.push(((v >> 40) & 0xff) as u8);
        out.push(((v >> 48) & 0xff) as u8);
        out.push(((v >> 56) & 0xff) as u8);
        proof {
            assert(out@ =~= le_bytes_of(v));
        }
        out
    }
}

/// The outcome of the threshold-update state machine once the account list
/// has been resolved and the expected config address is known. The checks
/// run in order and the first failure wins: address binding, payload shape,
/// ownership, record length, liveness, slot-count sanity, the no-op guard,
/// and the reachability bounds. On success the new threshold is reported.
pub open spec fn spec_update_threshold(
    cfg_key: Seq<u8>,
    cfg_owner: Seq<u8>,
    cfg_data: Seq<u8>,
    expected_key: Seq<u8>,
    payload: Seq<u8>,
    program_id: Seq<u8>,
) -> Result<u64, MultisigError> {
    if cfg_key != expected_key {
        Err(MultisigError::AddressMismatch)
    } else if payload.len() != UPDATE_THRESHOLD_LEN {
        Err(MultisigError::InvalidInstructionData)
    } else if cfg_owner != program_id {
        Err(MultisigError::IllegalOwner)
    } else if cfg_data.len() != MULTISIG_CONFIG_LEN {
        Err(MultisigError::InvalidAccountData)
    } else {
        let cfg = MultisigConfig::spec_load(cfg_data);
        let v = le_u64_of(payload);
        if cfg.init_marker != INIT_MARKER_LIVE {
            Err(MultisigError::Uninitialized)
        } else if cfg.member_count as int > MAX_MEMBERS as int {
            Err(MultisigError::InvalidAccountData)
        } else if v == cfg.min_threshold {
            Err(MultisigError::NoOpRejected)
        } else if v == 0 || v as int > spec_count_approvers(cfg.members, cfg.member_count as int) {
            Err(MultisigError::ThresholdOutOfRange)
        } else {
            Ok(v)
        }
    }
}

/// Run the threshold-update transition against the config account, given
/// the expected (derived) config address. The transition applies fully or
/// fails with no byte of the account changed; on success only the
/// threshold's 8 bytes change, and the decoded record differs from the old
/// one in `min_threshold` alone.
pub fn apply_update_threshold(
    program_id: &Pubkey,
    expected_config_key: &Pubkey,
    config_account: &mut Account,
    payload: &[u8],
) -> (r: Result<u64, MultisigError>)
    ensures
        r == spec_update_threshold(
            old(config_account).key@,
            old(config_account).owner@,
            old(config_account).data@,
            expected_config_key@,
            payload@,
            program_id@,
        ),
        final(config_account).key@ == old(config_account).key@,
        final(config_account).owner@ == old(config_account).owner@,
        (r is Err ==> *final(config_account) == *old(config_account)),
        (r matches Ok(v) ==> (final(config_account).data@.len() == old(
            config_account,
        ).data@.len() && MultisigConfig::spec_load(final(config_account).data@)
            == (MultisigConfigView {
            min_threshold: v,
            ..MultisigConfig::spec_load(old(config_account).data@)
        }) && final(config_account).data@.subrange(1, 9) == le_bytes_of(v) && (forall|i: int|
            0 <= i < old(config_account).data@.len() && !(1 <= i < 9)
                ==> final(config_account).data@[i] == old(config_account).data@[i]))),
{
    let key_matches = config_account.key.key_eq(expected_config_key);
    if !key_matches {
        return Err(MultisigError::AddressMismatch);
    }
    let upd = load_ix_data::<UpdateThreshold>(payload)?;
    let cfg = try_from_account_info_mut::<MultisigConfig>(program_id, config_account)?;
    if !cfg.is_initialized() {
        return Err(MultisigError::Uninitialized);
    }
    if cfg.member_count as usize > MAX_MEMBERS {
        return Err(MultisigError::InvalidAccountData);
    }
    let new_threshold = upd.min_threshold;
    if new_threshold == cfg.min_threshold {
        return Err(MultisigError::NoOpRejected);
    }
    let approvers = cfg.approver_count();
    if new_threshold == 0 || new_threshold > approvers as u64 {
        return Err(MultisigError::ThresholdOutOfRange);
    }
    let ghost old_data = config_account.data@;
    write_le_u64(&mut config_account.data, 1, new_threshold);
    proof {
        lemma_le_u64_of_le_bytes(new_threshold);
        let new_data = config_account.data@;
        assert(new_data.subrange(1, 9) == le_bytes_of(new_threshold));
        assert(le_u64_of(new_data.subrange(1, 9)) == new_threshold);
        assert forall|i: int| 0 <= i < MAX_MEMBERS as int implies #[trigger] new_data.subrange(
            10 + 33 * i,
            43 + 33 * i,
        ) == old_data.subrange(10 + 33 * i, 43 + 33 * i) by {
            assert(new_data.subrange(10 + 33 * i, 43 + 33 * i) =~= old_data.subrange(
                10 + 33 * i,
                43 + 33 * i,
            ));
        }
        assert(config_members_from(new_data) =~= config_members_from(old_data));
        assert(MultisigConfig::spec_load(new_data) =~= (MultisigConfigView {
            min_threshold: new_threshold,
            ..MultisigConfig::spec_load(old_data)
        }));
    }
    Ok(new_threshold)
}

/// The whole instruction over the resolved account list: the slots are, in
/// order, payer, creator, multisig root, multisig config, treasury, then
/// any instruction-specific remainder. Too short a list is rejected before
/// anything else; then the expected config address is recomputed from the
/// multisig root's address, and the transition runs on the config account.
pub open spec fn spec_process_update_threshold(
    accounts: Seq<Account>,
    payload: Seq<u8>,
    program_id: Seq<u8>,
) -> Result<u64, MultisigError> {
    if accounts.len() < 5 {
        Err(MultisigError::MissingAccounts)
    } else {
        match pda_config_of(accounts[2].key@, program_id) {
            Option::None => Err(MultisigError::AddressMismatch),
            Option::Some(d) => spec_update_threshold(
                accounts[3].key@,
                accounts[3].owner@,
                accounts[3].data@,
                d.0,
                payload,
                program_id,
            ),
        }
    }
}

/// Process one update-threshold instruction: validate the caller's account
/// list, bind the supplied config account to the multisig root through the
/// derived address, and apply the transition in place. On success the new
/// threshold is returned for the caller to report; on any error no account
/// is touched.
///
/// The transition does not yet authenticate the creator slot against the
/// member list's permissions; the surrounding dispatch must verify that the
/// presented authority signed before routing the instruction here.
pub fn process_update_threshold_instruction(
    program_id: &Pubkey,
    accounts: &mut Vec<Account>,
    data: &[u8],
) -> (r: Result<u64, MultisigError>)
    requires
        program_id@.len() == 32,
    ensures
        r == spec_process_update_threshold(old(accounts)@, data@, program_id@),
        final(accounts)@.len() == old(accounts)@.len(),
        forall|i: int|
            0 <= i < old(accounts)@.len() && i != 3 ==> final(accounts)@[i] == old(accounts)@[i],
        (r is Err ==> final(accounts)@ == old(accounts)@),
        (r matches Ok(v) ==> (old(accounts)@.len() >= 5
            && final(accounts)@[3].key@ == old(accounts)@[3].key@
            && final(accounts)@[3].owner@ == old(accounts)@[3].owner@
            && final(accounts)@[3].data@.len() == old(accounts)@[3].data@.len()
            && MultisigConfig::spec_load(final(accounts)@[3].data@) == (MultisigConfigView {
                min_threshold: v,
                ..MultisigConfig::spec_load(old(accounts)@[3].data@)
            })
            && final(accounts)@[3].data@.subrange(1, 9) == le_bytes_of(v)
            && (forall|i: int|
                0 <= i < old(accounts)@[3].data@.len() && !(1 <= i < 9)
                    ==> final(accounts)@[3].data@[i] == old(accounts)@[3].data@[i]))),
{
    if accounts.len() < 5 {
        return Err(MultisigError::MissingAccounts);
    }
    let multisig_key = &accounts[2].key;
    let derived = derive_config_address(multisig_key, program_id);
    match derived {
        Option::None => Err(MultisigError::AddressMismatch),
        Option::Some((expected_key, _bump)) => {
            let config_account = &mut accounts[3];
            let r = apply_update_threshold(program_id, &expected_key, config_account, data);
            proof {
                if r is Err {
                    assert(accounts@ =~= old(accounts)@);
                }
            }
            r
        },
    }
}

// ---------------------------------------------------------------------------
// Laws of the transition
// ---------------------------------------------------------------------------

/// Law: for a valid stored config and a new threshold that differs from the
/// current value and is reachable — at least 1 and at most the approver
/// count of the slots in use — the transition succeeds with exactly that
/// value. `apply_update_threshold`'s contract then pins the stored record
/// to the old one with `min_threshold` alone changed.
pub proof fn lemma_valid_update_applies(
    cfg_key: Seq<u8>,
    cfg_owner: Seq<u8>,
    cfg_data: Seq<u8>,
    expected_key: Seq<u8>,
    payload: Seq<u8>,
    program_id: Seq<u8>,
)
    requires
        cfg_key == expected_key,
        cfg_owner == program_id,
        cfg_data.len() == MULTISIG_CONFIG_LEN,
        payload.len() == UPDATE_THRESHOLD_LEN,
        MultisigConfig::spec_load(cfg_data).init_marker == INIT_MARKER_LIVE,
        MultisigConfig::spec_load(cfg_data).member_count as int <= MAX_MEMBERS as int,
        le_u64_of(payload) != MultisigConfig::spec_load(cfg_data).min_threshold,
        1 <= le_u64_of(payload),
        le_u64_of(payload) as int <= spec_count_approvers(
            MultisigConfig::spec_load(cfg_data).members,
            MultisigConfig::spec_load(cfg_data).member_count as int,
        ),
    ensures
        spec_update_threshold(cfg_key, cfg_owner, cfg_data, expected_key, payload, program_id)
            == Ok::<u64, MultisigError>(le_u64_of(payload)),
{
}

/// Law: an update that changes nothing is caller error. For a valid stored
/// config and a payload carrying the current threshold, the transition
/// fails with `NoOpRejected`; by `apply_update_threshold`'s contract every
/// failing transition leaves the account byte for byte as it was.
pub proof fn lemma_noop_update_rejected(
    cfg_key: Seq<u8>,
    cfg_owner: Seq<u8>,
    cfg_data: Seq<u8>,
    expected_key: Seq<u8>,
    payload: Seq<u8>,
    program_id: Seq<u8>,
)
    requires
        cfg_key == expected_key,
        cfg_owner == program_id,
        cfg_data.len() == MULTISIG_CONFIG_LEN,
        payload.len() == UPDATE_THRESHOLD_LEN,
        MultisigConfig::spec_load(cfg_data).init_marker == INIT_MARKER_LIVE,
        MultisigConfig::spec_load(cfg_data).member_count as int <= MAX_MEMBERS as int,
        le_u64_of(payload) == MultisigConfig::spec_load(cfg_data).min_threshold,
    ensures
        spec_update_threshold(cfg_key, cfg_owner, cfg_data, expected_key, payload, program_id)
            == Err::<u64, MultisigError>(MultisigError::NoOpRejected),
{
}

/// Law: a payload whose length differs from the fixed record size fails
/// with `InvalidInstructionData`, whatever the config account holds; the
/// payload shape is checked before the account is read, and a failing
/// transition touches no account.
pub proof fn lemma_bad_payload_rejected(
    cfg_key: Seq<u8>,
    cfg_owner: Seq<u8>,
    cfg_data: Seq<u8>,
    expected_key: Seq<u8>,
    payload: Seq<u8>,
    program_id: Seq<u8>,
)
    requires
        cfg_key == expected_key,
        payload.len() != UPDATE_THRESHOLD_LEN,
    ensures
        spec_update_threshold(cfg_key, cfg_owner, cfg_data, expected_key, payload, program_id)
            == Err::<u64, MultisigError>(MultisigError::InvalidInstructionData),
{
}

/// Law: a config account whose address is not the derived one fails with
/// `AddressMismatch` before the payload is even inspected, whatever the
/// payload or the account's bytes hold.
pub proof fn lemma_address_mismatch_rejected(
    cfg_key: Seq<u8>,
    cfg_owner: Seq<u8>,
    cfg_data: Seq<u8>,
    expected_key: Seq<u8>,
    payload: Seq<u8>,
    program_id: Seq<u8>,
)
    requires
        cfg_key != expected_key,
    ensures
        spec_update_threshold(cfg_key, cfg_owner, cfg_data, expected_key, payload, program_id)
            == Err::<u64, MultisigError>(MultisigError::AddressMismatch),
{
}

} // verus!
