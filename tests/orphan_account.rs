use orphan_account::account_info::AccountInfo;
use orphan_account::codec::{try_deserialize, try_deserialize_unchecked, try_serialize};
use orphan_account::error::ErrorCode;
use orphan_account::orphan::{AccountMeta, OrphanAccount};
use orphan_account::pubkey::Pubkey;
use orphan_account::vault::{Vault, VAULT_DISCRIMINATOR};

fn program_a() -> Pubkey {
    Pubkey::new_from_array([7u8; 32])
}

fn program_b() -> Pubkey {
    Pubkey::new_from_array([9u8; 32])
}

fn account_key() -> Pubkey {
    let mut b = [0u8; 32];
    b[0] = 1;
    b[31] = 2;
    Pubkey::new_from_array(b)
}

fn vault_bytes(balance: u64) -> Vec<u8> {
    let mut v = VAULT_DISCRIMINATOR.to_vec();
    v.extend_from_slice(&balance.to_le_bytes());
    v
}

fn buffer(owner: Pubkey, lamports: u64, writable: bool, data: Vec<u8>) -> AccountInfo {
    AccountInfo::new(account_key(), owner, lamports, false, writable, data)
}

fn data_of(info: &AccountInfo) -> Vec<u8> {
    info.try_borrow_data().unwrap().to_vec()
}

#[test]
fn encode_is_discriminator_then_le_balance() {
    let bytes = try_serialize(&Vault { balance: 0x0102_0304_0506_0708 });
    assert_eq!(
        bytes,
        vec![211, 8, 232, 43, 2, 152, 117, 119, 8, 7, 6, 5, 4, 3, 2, 1]
    );
}

#[test]
fn round_trip_recovers_value() {
    for balance in [0u64, 1, 100, 255, 256, u64::MAX] {
        let v = Vault { balance };
        let bytes = try_serialize(&v);
        assert_eq!(try_deserialize::<Vault>(&bytes), Ok(v));
    }
}

#[test]
fn round_trip_ignores_trailing_bytes() {
    let mut bytes = try_serialize(&Vault { balance: 42 });
    bytes.extend_from_slice(&[5, 5, 5]);
    assert_eq!(try_deserialize::<Vault>(&bytes), Ok(Vault { balance: 42 }));
}

#[test]
fn decode_short_discriminator_is_mismatch() {
    assert_eq!(
        try_deserialize::<Vault>(&[211, 8, 232]),
        Err(ErrorCode::AccountDiscriminatorMismatch)
    );
    assert_eq!(
        try_deserialize::<Vault>(&[]),
        Err(ErrorCode::AccountDiscriminatorMismatch)
    );
}

#[test]
fn decode_short_payload_fails() {
    let mut bytes = VAULT_DISCRIMINATOR.to_vec();
    bytes.extend_from_slice(&[1, 2, 3]);
    assert_eq!(
        try_deserialize::<Vault>(&bytes),
        Err(ErrorCode::AccountDidNotDeserialize)
    );
    assert_eq!(
        try_deserialize_unchecked::<Vault>(&[1, 2, 3]),
        Err(ErrorCode::AccountDidNotDeserialize)
    );
}

#[test]
fn uninitialized_system_account_is_rejected() {
    let info = buffer(Pubkey::system_program_id(), 0, true, vault_bytes(5));
    assert_eq!(
        OrphanAccount::<Vault>::try_from(&info).err(),
        Some(ErrorCode::AccountNotInitialized)
    );
    assert_eq!(
        OrphanAccount::<Vault>::try_from_unchecked(&info).err(),
        Some(ErrorCode::AccountNotInitialized)
    );
}

#[test]
fn system_account_with_lamports_is_accepted() {
    let info = buffer(Pubkey::system_program_id(), 1, true, vault_bytes(5));
    let h = OrphanAccount::<Vault>::try_from(&info).unwrap();
    assert_eq!(h.deref().balance, 5);
}

#[test]
fn foreign_discriminator_refused_unless_unchecked() {
    let mut data = vault_bytes(33);
    data[0] = 0;
    let info = buffer(program_a(), 10, true, data);
    assert_eq!(
        OrphanAccount::<Vault>::try_from(&info).err(),
        Some(ErrorCode::AccountDiscriminatorMismatch)
    );
    let h = OrphanAccount::<Vault>::try_from_unchecked(&info).unwrap();
    assert_eq!(h.into_inner(), Vault { balance: 33 });
}

#[test]
fn construct_fails_while_exclusively_borrowed() {
    let mut info = buffer(program_a(), 10, true, vault_bytes(1));
    assert_eq!(info.acquire_data_mut(), Ok(()));
    assert_eq!(
        OrphanAccount::<Vault>::try_from(&info).err(),
        Some(ErrorCode::AccountBorrowFailed)
    );
    info.release_data_mut();
    assert!(OrphanAccount::<Vault>::try_from(&info).is_ok());
}

#[test]
fn second_exclusive_borrow_fails() {
    let mut info = buffer(program_a(), 10, true, vault_bytes(1));
    assert_eq!(info.acquire_data_mut(), Ok(()));
    assert_eq!(info.acquire_data_mut(), Err(ErrorCode::AccountBorrowFailed));
    assert_eq!(info.acquire_data(), Err(ErrorCode::AccountBorrowFailed));
    info.release_data_mut();
    assert_eq!(info.acquire_data(), Ok(()));
    assert_eq!(info.acquire_data_mut(), Err(ErrorCode::AccountBorrowFailed));
    info.release_data();
    assert_eq!(info.acquire_data_mut(), Ok(()));
}

#[test]
fn mutate_and_exit_writes_back() {
    let info = buffer(program_a(), 10, true, vault_bytes(100));
    let mut h = OrphanAccount::<Vault>::try_from(&info).unwrap();
    h.deref_mut().unwrap().balance = 150;
    assert_eq!(h.exit(&program_a()), Ok(()));
    let after = data_of(h.as_ref());
    assert_eq!(try_deserialize::<Vault>(&after), Ok(Vault { balance: 150 }));
}

#[test]
fn exit_keeps_bytes_past_the_encoding() {
    let mut data = vault_bytes(1);
    data.extend_from_slice(&[4, 4]);
    let info = buffer(program_a(), 10, true, data);
    let mut h = OrphanAccount::<Vault>::try_from(&info).unwrap();
    h.set_inner(Vault { balance: 2 });
    assert_eq!(h.exit(&program_a()), Ok(()));
    let mut expected = vault_bytes(2);
    expected.extend_from_slice(&[4, 4]);
    assert_eq!(data_of(h.as_ref()), expected);
}

#[test]
fn exit_for_other_program_leaves_bytes() {
    let info = buffer(program_a(), 10, true, vault_bytes(100));
    let mut h = OrphanAccount::<Vault>::try_from(&info).unwrap();
    h.set_inner(Vault { balance: 999 });
    assert_eq!(h.exit(&program_b()), Ok(()));
    assert_eq!(data_of(h.as_ref()), vault_bytes(100));
}

#[test]
fn exit_fails_while_borrowed() {
    let info = buffer(program_a(), 10, true, vault_bytes(100));
    let mut h = OrphanAccount::<Vault>::try_from(&info).unwrap();
    h.set_inner(Vault { balance: 1 });
    assert_eq!(h.as_mut().acquire_data(), Ok(()));
    assert_eq!(h.exit(&program_a()), Err(ErrorCode::AccountBorrowFailed));
    h.as_mut().release_data();
    assert_eq!(data_of(h.as_ref()), vault_bytes(100));
}

#[test]
fn exit_fails_when_buffer_too_small() {
    let info = buffer(program_a(), 10, true, vault_bytes(3));
    let mut h = OrphanAccount::<Vault>::try_from(&info).unwrap();
    h.as_mut().assign_data(vec![1, 2, 3]);
    assert_eq!(h.exit(&program_a()), Err(ErrorCode::AccountDidNotSerialize));
    assert_eq!(data_of(h.as_ref()), vec![1, 2, 3]);
}

#[test]
fn unchecked_short_payload_fails() {
    let mut data = vault_bytes(3);
    data.truncate(12);
    let info = buffer(program_a(), 10, true, data);
    assert_eq!(
        OrphanAccount::<Vault>::try_from_unchecked(&info).err(),
        Some(ErrorCode::AccountDidNotDeserialize)
    );
}

#[test]
fn reload_picks_up_external_change() {
    let info = buffer(program_a(), 10, true, vault_bytes(100));
    let mut h = OrphanAccount::<Vault>::try_from(&info).unwrap();
    h.as_mut().assign_data(vault_bytes(77));
    assert_eq!(h.deref().balance, 100);
    assert_eq!(h.reload(), Ok(()));
    assert_eq!(h.deref().balance, 77);
}

#[test]
fn reload_of_invalid_bytes_keeps_value() {
    let info = buffer(program_a(), 10, true, vault_bytes(100));
    let mut h = OrphanAccount::<Vault>::try_from(&info).unwrap();
    h.as_mut().assign_data(vec![0u8; 16]);
    assert_eq!(h.reload(), Err(ErrorCode::AccountDiscriminatorMismatch));
    assert_eq!(h.deref().balance, 100);
    let mut short = VAULT_DISCRIMINATOR.to_vec();
    short.push(1);
    h.as_mut().assign_data(short);
    assert_eq!(h.reload(), Err(ErrorCode::AccountDidNotDeserialize));
    assert_eq!(h.deref().balance, 100);
}

#[test]
fn close_is_always_rejected() {
    let info = buffer(program_a(), 10, true, vault_bytes(100));
    let h = OrphanAccount::<Vault>::try_from(&info).unwrap();
    let dest = buffer(program_b(), 0, true, vec![]);
    assert_eq!(h.close(&dest), Err(ErrorCode::CloseUnsupported));
    assert_eq!(data_of(h.as_ref()), vault_bytes(100));
    assert_eq!(h.as_ref().lamports(), 10);
}

#[test]
fn mutation_of_read_only_account_is_refused() {
    let info = buffer(program_a(), 10, false, vault_bytes(100));
    let mut h = OrphanAccount::<Vault>::try_from(&info).unwrap();
    assert_eq!(h.deref_mut().err(), Some(ErrorCode::AccountNotMutable));
    assert_eq!(h.deref().balance, 100);
}

#[test]
fn try_accounts_consumes_first() {
    let mut list = vec![
        buffer(program_a(), 10, true, vault_bytes(1)),
        buffer(program_b(), 10, true, vault_bytes(2)),
    ];
    let h = OrphanAccount::<Vault>::try_accounts(&mut list).unwrap();
    assert_eq!(h.deref().balance, 1);
    assert_eq!(list.len(), 1);
    assert_eq!(data_of(&list[0]), vault_bytes(2));
}

#[test]
fn try_accounts_on_empty_list() {
    let mut list: Vec<AccountInfo> = vec![];
    assert_eq!(
        OrphanAccount::<Vault>::try_accounts(&mut list).err(),
        Some(ErrorCode::AccountNotEnoughKeys)
    );
    assert!(list.is_empty());
}

#[test]
fn account_metas_follow_flags() {
    let info = buffer(program_a(), 10, true, vault_bytes(1));
    let h = OrphanAccount::<Vault>::try_from(&info).unwrap();
    let metas = h.to_account_metas(None);
    assert_eq!(metas.len(), 1);
    assert!(metas[0].is_writable);
    assert!(!metas[0].is_signer);
    assert!(metas[0].pubkey.equals(&account_key()));
    let metas = h.to_account_metas(Some(true));
    assert!(metas[0].is_signer);

    let ro = buffer(program_a(), 10, false, vault_bytes(1));
    let h = OrphanAccount::<Vault>::try_from(&ro).unwrap();
    let m: AccountMeta = h.to_account_metas(None)[0];
    assert!(!m.is_writable);
}

#[test]
fn account_infos_and_key() {
    let info = buffer(program_a(), 10, true, vault_bytes(1));
    let h = OrphanAccount::<Vault>::try_from(&info).unwrap();
    let infos = h.to_account_infos();
    assert_eq!(infos.len(), 1);
    assert_eq!(data_of(&infos[0]), vault_bytes(1));
    assert_eq!(h.key().to_bytes(), account_key().to_bytes());
}

#[test]
fn end_to_end_two_domains() {
    let info = buffer(program_a(), 10, true, vault_bytes(100));
    let mut h = OrphanAccount::<Vault>::try_from(&info).unwrap();
    h.deref_mut().unwrap().balance = 150;
    assert_eq!(h.exit(&program_a()), Ok(()));
    assert_eq!(
        try_deserialize::<Vault>(&data_of(h.as_ref())),
        Ok(Vault { balance: 150 })
    );
    let before = data_of(h.as_ref());
    h.set_inner(Vault { balance: 1 });
    assert_eq!(h.exit(&program_b()), Ok(()));
    assert_eq!(data_of(h.as_ref()), before);
}
