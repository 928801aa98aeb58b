use multisig_core::errors::MultisigError;
use multisig_core::instructions::update_threshold::{
    apply_update_threshold, process_update_threshold_instruction,
};
use multisig_core::pda::derive_config_address;
use multisig_core::state::accounts::{Account, Pubkey};

fn pk(b: u8) -> Pubkey {
    Pubkey { bytes: vec![b; 32] }
}

/// A full 340-byte config image: marker, threshold, slots-used count, and
/// ten member slots whose permission bytes come from `perms` (zero beyond).
fn config_bytes(threshold: u64, count: u8, perms: &[u8]) -> Vec<u8> {
    let mut d = vec![0u8; 340];
    d[0] = 1;
    d[1..9].copy_from_slice(&threshold.to_le_bytes());
    d[9] = count;
    for i in 0..10 {
        let base = 10 + 33 * i;
        for j in 0..32 {
            d[base + j] = (i as u8) + 1;
        }
        d[base + 32] = if i < perms.len() { perms[i] } else { 0 };
    }
    d
}

fn derived_config_key(msig: &Pubkey, pid: &Pubkey) -> Pubkey {
    let pid_a = solana_address::Address::try_from(pid.bytes.as_slice()).unwrap();
    let (addr, _bump) = solana_address::Address::find_program_address(
        &[b"multisig_config", msig.bytes.as_slice()],
        &pid_a,
    );
    Pubkey {
        bytes: addr.to_bytes().to_vec(),
    }
}

fn account(key: Pubkey, owner: Pubkey, data: Vec<u8>) -> Account {
    Account { key, owner, data }
}

/// payer, creator, multisig root, multisig config, treasury.
fn accounts_for(msig_key: Pubkey, cfg_key: Pubkey, owner: Pubkey, data: Vec<u8>) -> Vec<Account> {
    vec![
        account(pk(0xA1), pk(0), vec![]),
        account(pk(0xA2), pk(0), vec![]),
        account(msig_key, owner.clone(), vec![]),
        account(cfg_key, owner, data),
        account(pk(0xA5), pk(0), vec![]),
    ]
}

#[test]
fn update_threshold_success_scenario() {
    let pid = pk(7);
    let msig = pk(9);
    let cfg_key = derived_config_key(&msig, &pid);
    let data = config_bytes(2, 3, &[7, 7, 7]);
    let mut accounts = accounts_for(msig, cfg_key, pid.clone(), data.clone());
    let r = process_update_threshold_instruction(&pid, &mut accounts, &3u64.to_le_bytes());
    assert_eq!(r, Ok(3));
    let mut expected = data;
    expected[1..9].copy_from_slice(&3u64.to_le_bytes());
    assert_eq!(accounts[3].data, expected);
}

#[test]
fn update_threshold_noop_rejected() {
    let pid = pk(7);
    let msig = pk(9);
    let cfg_key = derived_config_key(&msig, &pid);
    let data = config_bytes(2, 3, &[7, 7, 7]);
    let mut accounts = accounts_for(msig, cfg_key, pid.clone(), data.clone());
    let r = process_update_threshold_instruction(&pid, &mut accounts, &2u64.to_le_bytes());
    assert_eq!(r, Err(MultisigError::NoOpRejected));
    assert_eq!(accounts[3].data, data);
}

#[test]
fn update_threshold_zero_rejected() {
    let pid = pk(7);
    let msig = pk(9);
    let cfg_key = derived_config_key(&msig, &pid);
    let data = config_bytes(2, 3, &[7, 7, 7]);
    let mut accounts = accounts_for(msig, cfg_key, pid.clone(), data.clone());
    let r = process_update_threshold_instruction(&pid, &mut accounts, &0u64.to_le_bytes());
    assert_eq!(r, Err(MultisigError::ThresholdOutOfRange));
    assert_eq!(accounts[3].data, data);
}

#[test]
fn update_threshold_above_approvers_rejected() {
    let pid = pk(7);
    let msig = pk(9);
    let cfg_key = derived_config_key(&msig, &pid);
    // Three slots in use, but only two members hold the vote bit.
    let data = config_bytes(2, 3, &[2, 2, 1]);
    let mut accounts = accounts_for(msig, cfg_key, pid.clone(), data.clone());
    let r = process_update_threshold_instruction(&pid, &mut accounts, &3u64.to_le_bytes());
    assert_eq!(r, Err(MultisigError::ThresholdOutOfRange));
    assert_eq!(accounts[3].data, data);
}

#[test]
fn update_threshold_address_mismatch() {
    let pid = pk(7);
    let msig = pk(9);
    let data = config_bytes(2, 3, &[7, 7, 7]);
    // The supplied config address is not the derived one; the payload is
    // junk, and is never inspected.
    let mut accounts = accounts_for(msig, pk(0x55), pid.clone(), data.clone());
    let r = process_update_threshold_instruction(&pid, &mut accounts, &[1, 2, 3]);
    assert_eq!(r, Err(MultisigError::AddressMismatch));
    assert_eq!(accounts[3].data, data);
}

#[test]
fn payload_wrong_length_rejected() {
    let pid = pk(7);
    let msig = pk(9);
    let cfg_key = derived_config_key(&msig, &pid);
    let data = config_bytes(2, 3, &[7, 7, 7]);
    let mut accounts = accounts_for(msig, cfg_key, pid.clone(), data.clone());
    let r = process_update_threshold_instruction(&pid, &mut accounts, &[3, 0, 0, 0, 0, 0, 0]);
    assert_eq!(r, Err(MultisigError::InvalidInstructionData));
    assert_eq!(accounts[3].data, data);
}

#[test]
fn missing_accounts_rejected() {
    let pid = pk(7);
    let mut accounts = vec![
        account(pk(0xA1), pk(0), vec![]),
        account(pk(0xA2), pk(0), vec![]),
        account(pk(9), pid.clone(), vec![]),
        account(pk(0x55), pid.clone(), config_bytes(2, 3, &[7, 7, 7])),
    ];
    let r = process_update_threshold_instruction(&pid, &mut accounts, &3u64.to_le_bytes());
    assert_eq!(r, Err(MultisigError::MissingAccounts));
}

#[test]
fn illegal_owner_rejected() {
    let pid = pk(7);
    let msig = pk(9);
    let cfg_key = derived_config_key(&msig, &pid);
    let data = config_bytes(2, 3, &[7, 7, 7]);
    let mut accounts = accounts_for(msig, cfg_key, pk(8), data.clone());
    let r = process_update_threshold_instruction(&pid, &mut accounts, &3u64.to_le_bytes());
    assert_eq!(r, Err(MultisigError::IllegalOwner));
    assert_eq!(accounts[3].data, data);
}

#[test]
fn wrong_data_length_rejected() {
    let pid = pk(7);
    let msig = pk(9);
    let cfg_key = derived_config_key(&msig, &pid);
    let mut data = config_bytes(2, 3, &[7, 7, 7]);
    data.pop();
    let mut accounts = accounts_for(msig, cfg_key, pid.clone(), data.clone());
    let r = process_update_threshold_instruction(&pid, &mut accounts, &3u64.to_le_bytes());
    assert_eq!(r, Err(MultisigError::InvalidAccountData));
    assert_eq!(accounts[3].data, data);
}

#[test]
fn corrupt_member_count_rejected() {
    let pid = pk(7);
    let msig = pk(9);
    let cfg_key = derived_config_key(&msig, &pid);
    // Slots-used count above the fixed capacity: corrupt storage.
    let data = config_bytes(2, 11, &[7, 7, 7]);
    let mut accounts = accounts_for(msig, cfg_key, pid.clone(), data.clone());
    let r = process_update_threshold_instruction(&pid, &mut accounts, &3u64.to_le_bytes());
    assert_eq!(r, Err(MultisigError::InvalidAccountData));
    assert_eq!(accounts[3].data, data);
}

#[test]
fn uninitialized_rejected() {
    let pid = pk(7);
    let msig = pk(9);
    let cfg_key = derived_config_key(&msig, &pid);
    let mut data = config_bytes(2, 3, &[7, 7, 7]);
    data[0] = 0;
    let mut accounts = accounts_for(msig, cfg_key, pid.clone(), data.clone());
    let r = process_update_threshold_instruction(&pid, &mut accounts, &3u64.to_le_bytes());
    assert_eq!(r, Err(MultisigError::Uninitialized));
    assert_eq!(accounts[3].data, data);
}

#[test]
fn apply_transition_with_explicit_expected_key() {
    let pid = pk(7);
    let cfg_key = pk(0x31);
    let data = config_bytes(5, 4, &[2, 2, 2, 2]);
    let mut cfg = account(cfg_key.clone(), pid.clone(), data.clone());
    let r = apply_update_threshold(&pid, &cfg_key, &mut cfg, &4u64.to_le_bytes());
    assert_eq!(r, Ok(4));
    let mut expected = data;
    expected[1..9].copy_from_slice(&4u64.to_le_bytes());
    assert_eq!(cfg.data, expected);
}

#[test]
fn derive_matches_reference() {
    let pid = pk(7);
    let msig = pk(9);
    let derived = derive_config_address(&msig, &pid).expect("a bump seed exists for these keys");
    let reference = derived_config_key(&msig, &pid);
    assert_eq!(derived.0.bytes, reference.bytes);
    // The derivation really transformed its inputs.
    assert_ne!(derived.0.bytes, msig.bytes);
    assert_ne!(derived.0.bytes, pid.bytes);
}
