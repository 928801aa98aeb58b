use multisig_core::errors::MultisigError;
use multisig_core::instructions::update_threshold::UpdateThreshold;
use multisig_core::state::accounts::{Account, Pubkey};
use multisig_core::state::records::{
    Member, Multisig, MultisigConfig, Permission, PERMISSION_EXECUTE, PERMISSION_PROPOSE,
    PERMISSION_VOTE,
};
use multisig_core::state::utils::{
    bytes_eq, load_acc, load_acc_mut, load_acc_mut_unchecked, load_acc_unchecked, load_ix_data,
    read_le_u64, to_bytes, to_mut_bytes, try_from_account_info, try_from_account_info_mut,
    write_le_u64,
};

fn pattern(len: usize, salt: u8) -> Vec<u8> {
    (0..len).map(|i| (i as u8).wrapping_mul(7).wrapping_add(salt)).collect()
}

#[test]
fn update_threshold_exact_value() {
    let bytes = [0x08, 0x07, 0x06, 0x05, 0x04, 0x03, 0x02, 0x01];
    let upd: UpdateThreshold = load_ix_data(&bytes).unwrap();
    assert_eq!(upd.min_threshold, 0x0102030405060708);
}

#[test]
fn update_threshold_round_trip() {
    let bytes = pattern(8, 3);
    let upd: UpdateThreshold = load_acc_unchecked(&bytes).unwrap();
    assert_eq!(to_bytes(&upd), bytes);
}

#[test]
fn member_round_trip() {
    let bytes = pattern(33, 11);
    let m: Member = load_acc_unchecked(&bytes).unwrap();
    assert_eq!(m.identity, bytes[0..32].to_vec());
    assert_eq!(m.permissions.bits, bytes[32]);
    assert_eq!(to_bytes(&m), bytes);
}

#[test]
fn multisig_round_trip() {
    let bytes = pattern(34, 29);
    let m: Multisig = load_acc_mut_unchecked(&bytes).unwrap();
    assert_eq!(to_bytes(&m), bytes);
}

#[test]
fn config_round_trip() {
    // An arbitrary full-length image round-trips, whatever its marker,
    // count byte or member contents hold.
    let bytes = pattern(340, 17);
    let cfg: MultisigConfig = load_acc_unchecked(&bytes).unwrap();
    assert_eq!(to_bytes(&cfg), bytes);
}

#[test]
fn config_fields_decoded() {
    let mut bytes = vec![0u8; 340];
    bytes[0] = 1;
    bytes[1..9].copy_from_slice(&2u64.to_le_bytes());
    bytes[9] = 3;
    for i in 0..3 {
        bytes[10 + 33 * i + 32] = PERMISSION_VOTE;
    }
    let cfg: MultisigConfig = load_acc(&bytes).unwrap();
    assert_eq!(cfg.min_threshold, 2);
    assert_eq!(cfg.member_count, 3);
    assert_eq!(cfg.members.len(), 10);
    assert_eq!(cfg.approver_count(), 3);
}

#[test]
fn load_acc_checks_marker() {
    let bytes = vec![0u8; 340];
    let r: Result<MultisigConfig, MultisigError> = load_acc(&bytes);
    assert_eq!(r.err(), Some(MultisigError::Uninitialized));
    let r: Result<MultisigConfig, MultisigError> = load_acc_mut(&bytes);
    assert_eq!(r.err(), Some(MultisigError::Uninitialized));
}

#[test]
fn load_acc_checks_length() {
    let bytes = vec![1u8; 339];
    let r: Result<MultisigConfig, MultisigError> = load_acc(&bytes);
    assert_eq!(r.err(), Some(MultisigError::InvalidAccountData));
    let r: Result<MultisigConfig, MultisigError> = load_acc_unchecked(&bytes);
    assert_eq!(r.err(), Some(MultisigError::InvalidAccountData));
}

#[test]
fn load_ix_data_checks_length() {
    let bytes = vec![0u8; 9];
    let r: Result<UpdateThreshold, MultisigError> = load_ix_data(&bytes);
    assert_eq!(r.err(), Some(MultisigError::InvalidInstructionData));
}

#[test]
fn store_back_into_buffer() {
    let bytes = pattern(340, 5);
    let mut cfg: MultisigConfig = load_acc_unchecked(&bytes).unwrap();
    cfg.min_threshold = 9;
    let mut buf = bytes.clone();
    to_mut_bytes(&cfg, &mut buf);
    let mut expected = bytes;
    expected[1..9].copy_from_slice(&9u64.to_le_bytes());
    assert_eq!(buf, expected);
}

#[test]
fn owner_checked_before_cast() {
    let pid = Pubkey { bytes: vec![7; 32] };
    let other = Pubkey { bytes: vec![8; 32] };
    let acc = Account {
        key: Pubkey { bytes: vec![1; 32] },
        owner: other,
        data: vec![0u8; 340],
    };
    let r: Result<MultisigConfig, MultisigError> = try_from_account_info(&pid, &acc);
    assert_eq!(r.err(), Some(MultisigError::IllegalOwner));
    let r: Result<MultisigConfig, MultisigError> = try_from_account_info_mut(&pid, &acc);
    assert_eq!(r.err(), Some(MultisigError::IllegalOwner));
    let owned = Account { owner: pid.clone(), ..acc };
    let r: Result<MultisigConfig, MultisigError> = try_from_account_info(&pid, &owned);
    assert!(r.is_ok());
}

#[test]
fn read_write_le_u64_exact() {
    let mut buf = vec![0u8; 12];
    write_le_u64(&mut buf, 2, 0x1122334455667788);
    assert_eq!(buf, vec![0, 0, 0x88, 0x77, 0x66, 0x55, 0x44, 0x33, 0x22, 0x11, 0, 0]);
    assert_eq!(read_le_u64(&buf, 2), 0x1122334455667788);
}

#[test]
fn bytes_eq_compares_contents() {
    assert!(bytes_eq(&[1, 2, 3], &[1, 2, 3]));
    assert!(!bytes_eq(&[1, 2, 3], &[1, 2, 4]));
    assert!(!bytes_eq(&[1, 2, 3], &[1, 2]));
}

#[test]
fn permission_bits_independent() {
    let p = Permission { bits: PERMISSION_PROPOSE | PERMISSION_EXECUTE };
    assert!(p.can_propose());
    assert!(!p.can_vote());
    assert!(p.can_execute());
    let v = Permission { bits: PERMISSION_VOTE };
    assert!(v.can_vote());
    assert!(!v.can_propose());
    assert!(!v.can_execute());
}

#[test]
fn multisig_marker_checked() {
    let mut bytes = pattern(34, 41);
    bytes[0] = 0;
    let r: Result<Multisig, MultisigError> = load_acc(&bytes);
    assert_eq!(r.err(), Some(MultisigError::Uninitialized));
    bytes[0] = 1;
    let m: Multisig = load_acc(&bytes).unwrap();
    assert_eq!(m.authority, bytes[1..33].to_vec());
    assert_eq!(m.config_bump, bytes[33]);
}
