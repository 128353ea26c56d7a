//! Returning a ticket: the current holder of a still-valid, unused
//! ticket burns it back and receives exactly the ticket price from the
//! vault; the freed capacity becomes sellable again.

use vstd::prelude::*;

use crate::accounts::ReturnTicket;
use crate::bytes::{bytes_eq, copy_bytes};
use crate::effects::{ops_views, TokenOp, TokenOpView};
use crate::errors::EventError;
use crate::pda::{
    ata_seeds, ata_seeds_spec, event_seeds, event_seeds_spec, is_pda, is_pda_with_bump,
    ticket_seeds, ticket_seeds_spec, vault_seeds, vault_seeds_spec,
};
use crate::state::{Event, EventView};
use crate::validate::{check_pda, check_pda_with_bump};

verus! {

/// The account images, balances and orchestration a successful
/// `return_ticket` asks the runtime to commit atomically.  The ticket
/// record and the holder's token account cease to exist.
#[derive(Debug)]
pub struct ReturnTicketEffects {
    /// The event with one more ticket returned.
    pub event: Event,
    /// Lamports moved from the vault to the holder: the ticket price.
    pub refund: u64,
    /// The vault balance after the refund.
    pub vault_lamports: u64,
    /// The holder balance after the refund.
    pub signer_lamports: u64,
    /// The ordered token-runtime calls: burn the one token, close the
    /// holder's token account, close the ticket record.
    pub ops: Vec<TokenOp>,
}

/// All account checks of `return_ticket` pass: every derivation matches,
/// the cross-references hold, and the holder signs.
pub open spec fn return_accounts_ok(
    accs: ReturnTicket,
    event_id: u64,
    ticket_id: u64,
    program_id: Seq<u8>,
) -> bool {
    &&& is_pda_with_bump(
        accs.event_addr@,
        accs.event@.bump,
        event_seeds_spec(accs.event@.admin, event_id),
        program_id,
    )
    &&& is_pda(accs.event_vault.addr@, vault_seeds_spec(accs.event_addr@), program_id)
    &&& accs.event_vault.addr@ == accs.event@.vault
    &&& is_pda_with_bump(
        accs.ticket_addr@,
        accs.ticket@.bump,
        ticket_seeds_spec(accs.event_addr@, ticket_id),
        program_id,
    )
    &&& accs.ticket@.event == accs.event_addr@
    &&& accs.ticket_mint_addr@ == accs.ticket@.mint
    &&& accs.signer.is_signer
    &&& is_pda(
        accs.signer_ticket_ata_addr@,
        ata_seeds_spec(accs.signer.addr@, accs.token_program@, accs.ticket_mint_addr@),
        accs.associated_token_program@,
    )
}

/// The error `return_ticket` aborts with, or `None` when it succeeds.
pub open spec fn return_ticket_error(
    accs: ReturnTicket,
    event_id: u64,
    ticket_id: u64,
    now: i64,
    program_id: Seq<u8>,
) -> Option<EventError> {
    if !is_pda_with_bump(
        accs.event_addr@,
        accs.event@.bump,
        event_seeds_spec(accs.event@.admin, event_id),
        program_id,
    ) {
        Some(EventError::AddressMismatch)
    } else if !is_pda(accs.event_vault.addr@, vault_seeds_spec(accs.event_addr@), program_id) {
        Some(EventError::AddressMismatch)
    } else if accs.event_vault.addr@ != accs.event@.vault {
        Some(EventError::AddressMismatch)
    } else if !is_pda_with_bump(
        accs.ticket_addr@,
        accs.ticket@.bump,
        ticket_seeds_spec(accs.event_addr@, ticket_id),
        program_id,
    ) {
        Some(EventError::AddressMismatch)
    } else if accs.ticket@.event != accs.event_addr@ {
        Some(EventError::AddressMismatch)
    } else if accs.ticket_mint_addr@ != accs.ticket@.mint {
        Some(EventError::AddressMismatch)
    } else if !accs.signer.is_signer {
        Some(EventError::Unauthorized)
    } else if !is_pda(
        accs.signer_ticket_ata_addr@,
        ata_seeds_spec(accs.signer.addr@, accs.token_program@, accs.ticket_mint_addr@),
        accs.associated_token_program@,
    ) {
        Some(EventError::AddressMismatch)
    } else if now > accs.ticket@.valid_until {
        Some(EventError::TicketExpired)
    } else if accs.ticket@.used {
        Some(EventError::TicketAlreadyUsed)
    } else if accs.event@.tickets_returned == u64::MAX {
        Some(EventError::NumericOverflow)
    } else if accs.event_vault.lamports < accs.event@.ticket_price {
        Some(EventError::NumericOverflow)
    } else if accs.signer.lamports + accs.event@.ticket_price > u64::MAX {
        Some(EventError::NumericOverflow)
    } else {
        None
    }
}

/// The event image after a return: one more ticket returned.
pub open spec fn returned_event(e: EventView) -> EventView {
    EventView { tickets_returned: (e.tickets_returned + 1) as u64, ..e }
}

/// The return orchestration, in order: burn the one token under the
/// holder's signature, close the holder's token account, close the
/// ticket record with its rent to the holder.
pub open spec fn return_ops_spec(accs: ReturnTicket) -> Seq<TokenOpView> {
    seq![
        (TokenOpView::Burn {
            mint: accs.ticket_mint_addr@,
            from: accs.signer_ticket_ata_addr@,
            authority: accs.signer.addr@,
            amount: 1,
        }),
        (TokenOpView::CloseTokenAccount {
            account: accs.signer_ticket_ata_addr@,
            destination: accs.signer.addr@,
            authority: accs.signer.addr@,
        }),
        (TokenOpView::ClosePda { account: accs.ticket_addr@, destination: accs.signer.addr@ }),
    ]
}

/// Everything `return_ticket` promises of its outcome.
pub open spec fn return_ticket_post(
    accs: ReturnTicket,
    event_id: u64,
    ticket_id: u64,
    now: i64,
    program_id: Seq<u8>,
    r: Result<ReturnTicketEffects, EventError>,
) -> bool {
    match r {
        Ok(eff) => {
            &&& return_ticket_error(accs, event_id, ticket_id, now, program_id) is None
            &&& eff.event@ == returned_event(accs.event@)
            &&& eff.refund == accs.event@.ticket_price
            &&& eff.vault_lamports == accs.event_vault.lamports - accs.event@.ticket_price
            &&& eff.signer_lamports == accs.signer.lamports + accs.event@.ticket_price
            &&& ops_views(eff.ops) == return_ops_spec(accs)
        },
        Err(e) => return_ticket_error(accs, event_id, ticket_id, now, program_id) == Some(e),
    }
}

/// Return a ticket for a refund of exactly the ticket price.
pub fn return_ticket_handler(
    accs: &ReturnTicket,
    event_id: u64,
    ticket_id: u64,
    now: i64,
    program_id: &Vec<u8>,
) -> (r: Result<ReturnTicketEffects, EventError>)
    requires
        accs.wf(),
        program_id@.len() == 32,
    ensures
        return_ticket_post(*accs, event_id, ticket_id, now, program_id@, r),
        (r matches Ok(eff) ==> eff.event@.wf()),
{
    if !check_pda_with_bump(
        &accs.event_addr,
        accs.event.bump,
        event_seeds(&accs.event.admin, event_id),
        program_id,
    ) {
        return Err(EventError::AddressMismatch);
    }
    if !check_pda(&accs.event_vault.addr, vault_seeds(&accs.event_addr), program_id) {
        return Err(EventError::AddressMismatch);
    }
    if !bytes_eq(&accs.event_vault.addr, &accs.event.vault) {
        return Err(EventError::AddressMismatch);
    }
    if !check_pda_with_bump(
        &accs.ticket_addr,
        accs.ticket.bump,
        ticket_seeds(&accs.event_addr, ticket_id),
        program_id,
    ) {
        return Err(EventError::AddressMismatch);
    }
    if !bytes_eq(&accs.ticket.event, &accs.event_addr) {
        return Err(EventError::AddressMismatch);
    }
    if !bytes_eq(&accs.ticket_mint_addr, &accs.ticket.mint) {
        return Err(EventError::AddressMismatch);
    }
    if !accs.signer.is_signer {
        return Err(EventError::Unauthorized);
    }
    if !check_pda(
        &accs.signer_ticket_ata_addr,
        ata_seeds(&accs.signer.addr, &accs.token_program, &accs.ticket_mint_addr),
        &accs.associated_token_program,
    ) {
        return Err(EventError::AddressMismatch);
    }
    if now > accs.ticket.valid_until {
        return Err(EventError::TicketExpired);
    }
    if accs.ticket.used {
        return Err(EventError::TicketAlreadyUsed);
    }
    let new_returned = match accs.event.tickets_returned.checked_add(1) {
        Some(n) => n,
        None => {
            return Err(EventError::NumericOverflow);
        },
    };
    let vault_lamports = match accs.event_vault.lamports.checked_sub(accs.event.ticket_price) {
        Some(v) => v,
        None => {
            return Err(EventError::NumericOverflow);
        },
    };
    let signer_lamports = match accs.signer.lamports.checked_add(accs.event.ticket_price) {
        Some(v) => v,
        None => {
            return Err(EventError::NumericOverflow);
        },
    };
    let mut event = accs.event.dup();
    event.tickets_returned = new_returned;
    let mut ops: Vec<TokenOp> = Vec::new();
    ops.push(TokenOp::Burn {
        mint: copy_bytes(&accs.ticket_mint_addr),
        from: copy_bytes(&accs.signer_ticket_ata_addr),
        authority: copy_bytes(&accs.signer.addr),
        amount: 1,
    });
    ops.push(TokenOp::CloseTokenAccount {
        account: copy_bytes(&accs.signer_ticket_ata_addr),
        destination: copy_bytes(&accs.signer.addr),
        authority: copy_bytes(&accs.signer.addr),
    });
    ops.push(TokenOp::ClosePda {
        account: copy_bytes(&accs.ticket_addr),
        destination: copy_bytes(&accs.signer.addr),
    });
    proof {
        assert(ops_views(ops) =~~= return_ops_spec(*accs));
    }
    Ok(ReturnTicketEffects {
        event: event,
        refund: accs.event.ticket_price,
        vault_lamports: vault_lamports,
        signer_lamports: signer_lamports,
        ops: ops,
    })
}

} // verus!
