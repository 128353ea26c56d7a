//! Withdrawing proceeds: after the event has ended the admin sweeps the
//! vault balance to an optional destination and closes the event and
//! vault records, collecting their rent and any remaining balance.

use vstd::prelude::*;

use crate::accounts::WithdrawFunds;
use crate::bytes::{bytes_eq, copy_bytes};
use crate::effects::{ops_views, TokenOp, TokenOpView};
use crate::errors::EventError;
use crate::pda::{event_seeds, event_seeds_spec, is_pda, is_pda_with_bump, vault_seeds, vault_seeds_spec};
use crate::validate::{check_pda, check_pda_with_bump};

verus! {

/// The orchestration a successful `withdraw_funds` asks the runtime to
/// commit.  The event and vault records cease to exist afterwards, so a
/// second withdrawal has no event account left to present.
#[derive(Debug)]
pub struct WithdrawFundsEffects {
    /// Lamports swept to the alternate destination: the whole vault
    /// balance when one was supplied and the vault held anything.
    pub swept: u64,
    /// The ordered calls: the optional sweep, then closing the event and
    /// the vault with their remaining lamports to the admin.
    pub ops: Vec<TokenOp>,
}

/// The error `withdraw_funds` aborts with, or `None` when it succeeds.
pub open spec fn withdraw_funds_error(
    accs: WithdrawFunds,
    event_id: u64,
    now: i64,
    program_id: Seq<u8>,
) -> Option<EventError> {
    if !is_pda_with_bump(
        accs.event_addr@,
        accs.event@.bump,
        event_seeds_spec(accs.admin.addr@, event_id),
        program_id,
    ) {
        Some(EventError::AddressMismatch)
    } else if !is_pda(accs.event_vault.addr@, vault_seeds_spec(accs.event_addr@), program_id) {
        Some(EventError::AddressMismatch)
    } else if accs.event_vault.addr@ != accs.event@.vault {
        Some(EventError::AddressMismatch)
    } else if !accs.admin.is_signer {
        Some(EventError::Unauthorized)
    } else if accs.admin.addr@ != accs.event@.admin {
        Some(EventError::AuthorityMismatch)
    } else if now <= accs.event@.end_time {
        Some(EventError::EventNotEnded)
    } else {
        None
    }
}

/// The balance swept to the alternate destination: everything the vault
/// holds, when a destination was supplied.
pub open spec fn swept_amount(accs: WithdrawFunds) -> u64 {
    match accs.destination_vault {
        Some(_) => accs.event_vault.lamports,
        None => 0,
    }
}

/// The withdraw orchestration: sweep the vault balance to the alternate
/// destination when one was supplied and the vault holds anything, then
/// close the event and vault records to the admin.
pub open spec fn withdraw_ops_spec(accs: WithdrawFunds) -> Seq<TokenOpView> {
    let closes = seq![
        (TokenOpView::ClosePda { account: accs.event_addr@, destination: accs.admin.addr@ }),
        (TokenOpView::ClosePda {
            account: accs.event_vault.addr@,
            destination: accs.admin.addr@,
        }),
    ];
    match accs.destination_vault {
        Some(d) => {
            if accs.event_vault.lamports > 0 {
                seq![
                    (TokenOpView::TransferLamports {
                        from: accs.event_vault.addr@,
                        to: d.addr@,
                        amount: accs.event_vault.lamports,
                    }),
                ] + closes
            } else {
                closes
            }
        },
        None => closes,
    }
}

/// Everything `withdraw_funds` promises of its outcome.
pub open spec fn withdraw_funds_post(
    accs: WithdrawFunds,
    event_id: u64,
    now: i64,
    program_id: Seq<u8>,
    r: Result<WithdrawFundsEffects, EventError>,
) -> bool {
    match r {
        Ok(eff) => {
            &&& withdraw_funds_error(accs, event_id, now, program_id) is None
            &&& eff.swept == swept_amount(accs)
            &&& ops_views(eff.ops) == withdraw_ops_spec(accs)
        },
        Err(e) => withdraw_funds_error(accs, event_id, now, program_id) == Some(e),
    }
}

/// Withdraw the proceeds and close the event; admin-signed, only after
/// the event has ended.
pub fn withdraw_funds_handler(
    accs: &WithdrawFunds,
    event_id: u64,
    now: i64,
    program_id: &Vec<u8>,
) -> (r: Result<WithdrawFundsEffects, EventError>)
    requires
        accs.wf(),
        program_id@.len() == 32,
    ensures
        withdraw_funds_post(*accs, event_id, now, program_id@, r),
{
    if !check_pda_with_bump(
        &accs.event_addr,
        accs.event.bump,
        event_seeds(&accs.admin.addr, event_id),
        program_id,
    ) {
        return Err(EventError::AddressMismatch);
    }
    if !check_pda(&accs.event_vault.addr, vault_seeds(&accs.event_addr), program_id) {
        return Err(EventError::AddressMismatch);
    }
    if !bytes_eq(&accs.event_vault.addr, &accs.event.vault) {
        return Err(EventError::AddressMismatch);
    }
    if !accs.admin.is_signer {
        return Err(EventError::Unauthorized);
    }
    if !bytes_eq(&accs.admin.addr, &accs.event.admin) {
        return Err(EventError::AuthorityMismatch);
    }
    if now <= accs.event.end_time {
        return Err(EventError::EventNotEnded);
    }
    let mut ops: Vec<TokenOp> = Vec::new();
    let mut swept: u64 = 0;
    match &accs.destination_vault {
        Some(d) => {
            if accs.event_vault.lamports > 0 {
                ops.push(TokenOp::TransferLamports {
                    from: copy_bytes(&accs.event_vault.addr),
                    to: copy_bytes(&d.addr),
                    amount: accs.event_vault.lamports,
                });
                swept = accs.event_vault.lamports;
            }
        },
        None => {},
    }
    ops.push(TokenOp::ClosePda {
        account: copy_bytes(&accs.event_addr),
        destination: copy_bytes(&accs.admin.addr),
    });
    ops.push(TokenOp::ClosePda {
        account: copy_bytes(&accs.event_vault.addr),
        destination: copy_bytes(&accs.admin.addr),
    });
    proof {
        assert(ops_views(ops) =~~= withdraw_ops_spec(*accs));
    }
    Ok(WithdrawFundsEffects { swept: swept, ops: ops })
}

} // verus!
