use spl_token_2022::extension::transfer_hook::set_transferring;
use spl_token_2022::extension::{BaseStateWithExtensionsMut, ExtensionType, StateWithExtensionsMut};
use spl_token_2022::state::{Account, AccountState};

use event_tickets::accounts::TransferHook;
use event_tickets::dispatch::transfer_hook;
use event_tickets::errors::EventError;
use event_tickets::pda::{derive_address, extra_metas_seeds, ticket_ownership_seeds};
use event_tickets::state::TicketOwnership;
use event_tickets::transfer_hook::{build_extra_metas_data, extra_account_metas};

fn pid() -> Vec<u8> {
    vec![7u8; 32]
}

fn addr(b: u8) -> Vec<u8> {
    vec![b; 32]
}

/// A token-2022 account image for `owner`, with the transfer-hook
/// account extension, mid-transfer when `transferring` is set.
fn token_account_image(owner: &[u8], transferring: bool) -> Vec<u8> {
    let len = ExtensionType::try_calculate_account_len::<Account>(&[
        ExtensionType::TransferHookAccount,
    ])
    .unwrap();
    let mut buf = vec![0u8; len];
    let mut state = StateWithExtensionsMut::<Account>::unpack_uninitialized(&mut buf).unwrap();
    state.init_extension::<spl_token_2022::extension::transfer_hook::TransferHookAccount>(true)
        .unwrap();
    state.base.owner = owner.try_into().unwrap();
    state.base.state = AccountState::Initialized;
    state.base.amount = 1;
    if transferring {
        set_transferring(&mut state).unwrap();
    }
    state.pack_base();
    state.init_account_type().unwrap();
    buf
}

fn hook_accs(mint: &Vec<u8>, source_owner: u8, dest_owner: u8, transferring: bool) -> TransferHook {
    TransferHook {
        source_token_data: token_account_image(&addr(source_owner), transferring),
        mint_addr: mint.clone(),
        destination_token_data: token_account_image(&addr(dest_owner), transferring),
        extra_account_meta_list_addr: derive_address(extra_metas_seeds(mint), &pid())
            .unwrap()
            .0,
        ticket_ownership_addr: derive_address(ticket_ownership_seeds(mint), &pid())
            .unwrap()
            .0,
    }
}

fn ownership(mint: &Vec<u8>, owner: u8) -> TicketOwnership {
    TicketOwnership { owner: addr(owner), ticket: addr(11), mint: mint.clone() }
}

#[test]
fn observer_updates_the_holder_mid_transfer() {
    let mint = addr(4);
    let accs = hook_accs(&mint, 2, 3, true);
    let mut own = ownership(&mint, 2);
    assert_eq!(transfer_hook(&accs, &mut own, 1, &pid()), Ok(()));
    assert_eq!(own.owner, addr(3));
    assert_eq!(own.mint, mint);
}

#[test]
fn observer_rejects_calls_outside_a_transfer() {
    let mint = addr(4);
    let accs = hook_accs(&mint, 2, 3, false);
    let mut own = ownership(&mint, 2);
    assert_eq!(
        transfer_hook(&accs, &mut own, 1, &pid()).unwrap_err(),
        EventError::ProgramCalledOutsideOfTransfer
    );
    assert_eq!(own.owner, addr(2));
}

#[test]
fn observer_rejects_unreadable_token_accounts() {
    let mint = addr(4);
    let mut accs = hook_accs(&mint, 2, 3, true);
    accs.source_token_data = vec![1, 2, 3];
    let mut own = ownership(&mint, 2);
    assert_eq!(
        transfer_hook(&accs, &mut own, 1, &pid()).unwrap_err(),
        EventError::MalformedTokenAccount
    );
}

#[test]
fn observer_rejects_forged_record_addresses() {
    let mint = addr(4);
    let mut accs = hook_accs(&mint, 2, 3, true);
    accs.ticket_ownership_addr[0] = accs.ticket_ownership_addr[0].wrapping_add(1);
    let mut own = ownership(&mint, 2);
    assert_eq!(
        transfer_hook(&accs, &mut own, 1, &pid()).unwrap_err(),
        EventError::AddressMismatch
    );
}

#[test]
fn registration_entry_holds_the_ownership_seed_config() {
    let metas = extra_account_metas().unwrap();
    assert_eq!(metas.len(), 1);
    let meta = &metas[0];
    assert_eq!(meta.discriminator, 1);
    assert_eq!(meta.is_signer.0, 0);
    assert_eq!(meta.is_writable.0, 1);
    let mut config = vec![1u8, 16];
    config.extend_from_slice(b"ticket_ownership");
    config.extend_from_slice(&[3, 1]);
    config.resize(32, 0);
    assert_eq!(meta.address_config.to_vec(), config);
}

#[test]
fn registration_record_is_written_and_deterministic() {
    let data = build_extra_metas_data();
    assert_eq!(data.len(), 51);
    assert!(data.iter().any(|&b| b != 0));
    assert_eq!(data, build_extra_metas_data());
    // The packed entry stands at the tail of the record, after the
    // type-length-value header and the entry count.
    let metas = extra_account_metas().unwrap();
    let mut entry = vec![metas[0].discriminator];
    entry.extend_from_slice(&metas[0].address_config);
    entry.extend_from_slice(&[metas[0].is_signer.0, metas[0].is_writable.0]);
    assert_eq!(&data[16..51], entry.as_slice());
}
