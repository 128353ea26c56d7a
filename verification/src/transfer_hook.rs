//! The ownership-indirection layer: the transfer-observer registration
//! written at mint time, and the observer callback that the token runtime
//! invokes on every transfer of a ticket token.

use vstd::prelude::*;

use spl_tlv_account_resolution::account::ExtraAccountMeta;
use spl_tlv_account_resolution::seeds::Seed;
use spl_tlv_account_resolution::state::ExtraAccountMetaList;
use spl_token_2022::extension::transfer_hook::TransferHookAccount;
use spl_token_2022::extension::{BaseStateWithExtensions, StateWithExtensions};
use spl_token_2022::state::Account;
use spl_transfer_hook_interface::instruction::ExecuteInstruction;

use crate::accounts::TransferHook;
use crate::errors::EventError;
use crate::pda::{
    extra_metas_seeds_spec, is_pda, spec_ticket_ownership_tag, ticket_ownership_seeds_spec,
    ticket_ownership_tag,
};
use crate::state::{is_addr, TicketOwnership, TicketOwnershipView};

verus! {

/// The byte-backed bool of a registration entry's flags: zero is false,
/// one is true.
#[verifier::external_type_specification]
pub struct ExBool(solana_zero_copy::unaligned::Bool);

/// The type of a transfer-observer registration entry; its public fields
/// are the entry's packed form: a kind discriminator, the 32-byte
/// address config, and the signer and writable flags.
#[verifier::external_type_specification]
pub struct ExExtraAccountMeta(ExtraAccountMeta);

/// What a token-2022 account image holds, as far as this program reads
/// it: the owner of the account and its in-flight-transfer flag, or
/// nothing when the bytes are not a token account with that extension.
/// A pure function of the bytes.
pub uninterp spec fn token_account_facts(data: Seq<u8>) -> Option<(Seq<u8>, bool)>;

/// Relies on `StateWithExtensions::<Account>::unpack` and
/// `get_extension::<TransferHookAccount>` (spl-token-2022): the owner
/// field and the transferring flag are functions of the bytes alone, and
/// the owner is a 32-byte address.
#[verifier::external_body]
fn unpack_token_account(data: &Vec<u8>) -> (r: Option<(Vec<u8>, bool)>)
    ensures
        (match (r, token_account_facts(data@)) {
            (Some(p), Some(q)) => p.0@ == q.0 && p.1 == q.1 && q.0.len() == 32,
            (None, None) => true,
            _ => false,
        }),
{
    let st = match StateWithExtensions::<Account>::unpack(data.as_slice()) {
        Ok(st) => st,
        Err(_) => return None,
    };
    let ext = match st.get_extension::<TransferHookAccount>() {
        Ok(ext) => ext,
        Err(_) => return None,
    };
    Some((st.base.owner.to_bytes().to_vec(), bool::from(ext.transferring)))
}

/// The 32-byte address config that packs a literal seed `lit` followed
/// by an account-key seed at `key_index`: the literal's kind tag and
/// length, its bytes, the account-key kind tag and index, zero-padded.
/// Meaningful for literals of at most 28 bytes.
pub open spec fn spec_seed_config(lit: Seq<u8>, key_index: u8) -> Seq<u8> {
    seq![1u8, lit.len() as u8] + lit + seq![3u8, key_index] + Seq::new(
        (28 - lit.len()) as nat,
        |i: int| 0u8,
    )
}

/// Relies on `ExtraAccountMeta::new_with_seeds` (spl-tlv-account-resolution):
/// the entry's fields hold the packed seed configuration exactly.  A
/// literal that does not fit the 32-byte config with the account-key
/// seed is excluded: the packing arithmetic is not total there.
#[verifier::external_body]
fn new_seed_meta(lit: &Vec<u8>, key_index: u8, signer: bool, writable: bool) -> (r:
    ExtraAccountMeta)
    requires
        lit@.len() + 4 <= 32,
    ensures
        r.discriminator == 1,
        r.address_config@ == spec_seed_config(lit@, key_index),
        r.is_signer.0 == (if signer { 1u8 } else { 0u8 }),
        r.is_writable.0 == (if writable { 1u8 } else { 0u8 }),
{
    ExtraAccountMeta::new_with_seeds(
        &[Seed::Literal { bytes: lit.clone() }, Seed::AccountKey { index: key_index }],
        signer,
        writable,
    ).unwrap()
}

/// The bytes `ExtraAccountMetaList::init` writes for the execute
/// instruction over the one entry built from a literal seed `lit`, an
/// account-key seed at `key_index` and the given flags: a pure function
/// of that configuration.
pub uninterp spec fn registration_image(
    lit: Seq<u8>,
    key_index: u8,
    signer: bool,
    writable: bool,
) -> Seq<u8>;

/// Relies on `ExtraAccountMeta::new_with_seeds`,
/// `ExtraAccountMetaList::size_of` and
/// `ExtraAccountMetaList::init::<ExecuteInstruction>`
/// (spl-tlv-account-resolution, with the transfer-hook interface's
/// execute discriminator): the written record depends on the entry's
/// configuration alone; it is 51 bytes — a 12-byte type-length-value
/// header, a 4-byte count and one 35-byte entry — and none of the three
/// calls fails for a literal that fits the 32-byte config.
#[verifier::external_body]
fn build_registration(lit: &Vec<u8>, key_index: u8, signer: bool, writable: bool) -> (r: Vec<u8>)
    requires
        lit@.len() + 4 <= 32,
    ensures
        r@ == registration_image(lit@, key_index, signer, writable),
        r@.len() == 51,
{
    let meta = ExtraAccountMeta::new_with_seeds(
        &[Seed::Literal { bytes: lit.clone() }, Seed::AccountKey { index: key_index }],
        signer,
        writable,
    ).unwrap();
    let mut data = vec![0u8; ExtraAccountMetaList::size_of(1).unwrap()];
    ExtraAccountMetaList::init::<ExecuteInstruction>(&mut data, &[meta]).unwrap();
    data
}

/// The transfer-observer registration of a ticket mint: one entry that
/// resolves the ownership record from the literal ownership tag and the
/// mint key at index one of the execute instruction, writable and not a
/// signer; every call returns the same entry.
pub fn extra_account_metas() -> (r: Option<Vec<ExtraAccountMeta>>)
    ensures
        (match r {
            Some(v) => {
                &&& v@.len() == 1
                &&& v@[0].discriminator == 1
                &&& v@[0].address_config@ == spec_seed_config(spec_ticket_ownership_tag(), 1)
                &&& v@[0].is_signer.0 == 0
                &&& v@[0].is_writable.0 == 1
            },
            None => false,
        }),
{
    let lit = ticket_ownership_tag();
    let mut v: Vec<ExtraAccountMeta> = Vec::new();
    v.push(new_seed_meta(&lit, 1, false, true));
    Some(v)
}

/// Build the byte image of the transfer-observer registration record:
/// the one ownership entry, written for the execute instruction.
pub fn build_extra_metas_data() -> (r: Vec<u8>)
    ensures
        r@ == registration_image(spec_ticket_ownership_tag(), 1, false, true),
        r@.len() == 51,
{
    build_registration(&ticket_ownership_tag(), 1, false, true)
}

/// The error the transfer observer aborts with, or `None` when it
/// succeeds: the registration and ownership records must re-derive from
/// the mint, both token accounts must be readable, and both must be
/// flagged as inside an in-flight transfer.
pub open spec fn transfer_hook_error(accs: TransferHook, program_id: Seq<u8>) -> Option<
    EventError,
> {
    if !is_pda(
        accs.extra_account_meta_list_addr@,
        extra_metas_seeds_spec(accs.mint_addr@),
        program_id,
    ) {
        Some(EventError::AddressMismatch)
    } else if !is_pda(
        accs.ticket_ownership_addr@,
        ticket_ownership_seeds_spec(accs.mint_addr@),
        program_id,
    ) {
        Some(EventError::AddressMismatch)
    } else {
        match token_account_facts(accs.source_token_data@) {
            None => Some(EventError::MalformedTokenAccount),
            Some(src) => {
                if !src.1 {
                    Some(EventError::ProgramCalledOutsideOfTransfer)
                } else {
                    match token_account_facts(accs.destination_token_data@) {
                        None => Some(EventError::MalformedTokenAccount),
                        Some(dst) => {
                            if !dst.1 {
                                Some(EventError::ProgramCalledOutsideOfTransfer)
                            } else {
                                None
                            }
                        },
                    }
                }
            },
        }
    }
}

/// The owner the observer records on success: the owner of the
/// destination token account.
pub open spec fn destination_owner(accs: TransferHook) -> Seq<u8> {
    match token_account_facts(accs.destination_token_data@) {
        Some(dst) => dst.0,
        None => Seq::empty(),
    }
}

/// Invoked by the token runtime during a transfer of a ticket token:
/// verifies the call is genuinely mid-transfer, then records the
/// destination owner as the current holder.
pub fn transfer_hook_handler(
    accs: &TransferHook,
    ticket_ownership: &mut TicketOwnership,
    _amount: u64,
    program_id: &Vec<u8>,
) -> (r: Result<(), EventError>)
    requires
        is_addr(program_id@),
    ensures
        (match r {
            Ok(()) => {
                &&& transfer_hook_error(*accs, program_id@) is None
                &&& final(ticket_ownership)@ == (TicketOwnershipView {
                    owner: destination_owner(*accs),
                    ..old(ticket_ownership)@
                })
            },
            Err(e) => {
                &&& transfer_hook_error(*accs, program_id@) == Some(e)
                &&& final(ticket_ownership)@ == old(ticket_ownership)@
            },
        }),
{
    if !crate::validate::check_pda(
        &accs.extra_account_meta_list_addr,
        crate::pda::extra_metas_seeds(&accs.mint_addr),
        program_id,
    ) {
        return Err(EventError::AddressMismatch);
    }
    if !crate::validate::check_pda(
        &accs.ticket_ownership_addr,
        crate::pda::ticket_ownership_seeds(&accs.mint_addr),
        program_id,
    ) {
        return Err(EventError::AddressMismatch);
    }
    let src = match unpack_token_account(&accs.source_token_data) {
        Some(p) => p,
        None => {
            return Err(EventError::MalformedTokenAccount);
        },
    };
    if !src.1 {
        return Err(EventError::ProgramCalledOutsideOfTransfer);
    }
    let dst = match unpack_token_account(&accs.destination_token_data) {
        Some(p) => p,
        None => {
            return Err(EventError::MalformedTokenAccount);
        },
    };
    if !dst.1 {
        return Err(EventError::ProgramCalledOutsideOfTransfer);
    }
    ticket_ownership.owner = dst.0;
    Ok(())
}

} // verus!
