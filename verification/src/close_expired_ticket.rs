//! Reclaiming a ticket after the event: the admin, acting as the mint's
//! permanent delegate and close authority, burns the outstanding token
//! from whoever holds it, closes the mint, and closes the ticket and
//! ownership records, collecting the rent.

use vstd::prelude::*;

use crate::accounts::CloseExpiredTicket;
use crate::bytes::{bytes_eq, copy_bytes};
use crate::effects::{ops_views, TokenOp, TokenOpView};
use crate::errors::EventError;
use crate::pda::{
    ata_seeds, ata_seeds_spec, event_seeds, event_seeds_spec, is_pda, is_pda_with_bump,
    ticket_mint_seeds, ticket_mint_seeds_spec, ticket_ownership_seeds,
    ticket_ownership_seeds_spec, ticket_seeds, ticket_seeds_spec,
};
use crate::validate::{check_pda, check_pda_with_bump};

verus! {

/// The orchestration a successful `close_expired_ticket` asks the
/// runtime to commit.  The ticket, its mint and its ownership record
/// cease to exist; every reclaimed lamport goes to the admin.
#[derive(Debug)]
pub struct CloseExpiredTicketEffects {
    /// The ordered token-runtime calls: burn the token under the
    /// permanent-delegate authority, close the mint under the close
    /// authority, close the ticket and ownership records.
    pub ops: Vec<TokenOp>,
}

/// The error `close_expired_ticket` aborts with, or `None` when it
/// succeeds: derivations, cross-references and the mint's recorded
/// authorities, the admin's signature and identity, then the expiry gate.
pub open spec fn close_expired_ticket_error(
    accs: CloseExpiredTicket,
    event_id: u64,
    ticket_id: u64,
    now: i64,
    program_id: Seq<u8>,
) -> Option<EventError> {
    if !is_pda_with_bump(
        accs.event_addr@,
        accs.event@.bump,
        event_seeds_spec(accs.admin.addr@, event_id),
        program_id,
    ) {
        Some(EventError::AddressMismatch)
    } else if !is_pda_with_bump(
        accs.ticket_addr@,
        accs.ticket@.bump,
        ticket_seeds_spec(accs.event_addr@, ticket_id),
        program_id,
    ) {
        Some(EventError::AddressMismatch)
    } else if accs.ticket@.event != accs.event_addr@ {
        Some(EventError::AddressMismatch)
    } else if accs.ticket_mint_addr@ != accs.ticket@.mint {
        Some(EventError::AddressMismatch)
    } else if !is_pda(
        accs.ticket_mint_addr@,
        ticket_mint_seeds_spec(accs.event_addr@, ticket_id),
        program_id,
    ) {
        Some(EventError::AddressMismatch)
    } else if accs.mint_permanent_delegate@ != accs.admin.addr@ {
        Some(EventError::AuthorityMismatch)
    } else if accs.mint_close_authority@ != accs.admin.addr@ {
        Some(EventError::AuthorityMismatch)
    } else if accs.mint_transfer_hook_program@ != program_id {
        Some(EventError::AuthorityMismatch)
    } else if !is_pda(
        accs.ticket_ownership_addr@,
        ticket_ownership_seeds_spec(accs.ticket_mint_addr@),
        program_id,
    ) {
        Some(EventError::AddressMismatch)
    } else if !is_pda(
        accs.ticket_ata_addr@,
        ata_seeds_spec(
            accs.ticket_ownership@.owner,
            accs.token_program@,
            accs.ticket_mint_addr@,
        ),
        accs.associated_token_program@,
    ) {
        Some(EventError::AddressMismatch)
    } else if !accs.admin.is_signer {
        Some(EventError::Unauthorized)
    } else if accs.admin.addr@ != accs.event@.admin {
        Some(EventError::AuthorityMismatch)
    } else if now <= accs.event@.end_time {
        Some(EventError::EventNotEnded)
    } else {
        None
    }
}

/// The close orchestration, in order: burn the one token from the
/// holder's account under the permanent-delegate authority, close the
/// mint, close the ticket record, close the ownership record.
pub open spec fn close_expired_ops_spec(accs: CloseExpiredTicket) -> Seq<TokenOpView> {
    seq![
        (TokenOpView::Burn {
            mint: accs.ticket_mint_addr@,
            from: accs.ticket_ata_addr@,
            authority: accs.admin.addr@,
            amount: 1,
        }),
        (TokenOpView::CloseMint {
            account: accs.ticket_mint_addr@,
            destination: accs.admin.addr@,
            authority: accs.admin.addr@,
        }),
        (TokenOpView::ClosePda { account: accs.ticket_addr@, destination: accs.admin.addr@ }),
        (TokenOpView::ClosePda {
            account: accs.ticket_ownership_addr@,
            destination: accs.admin.addr@,
        }),
    ]
}

/// Everything `close_expired_ticket` promises of its outcome.
pub open spec fn close_expired_ticket_post(
    accs: CloseExpiredTicket,
    event_id: u64,
    ticket_id: u64,
    now: i64,
    program_id: Seq<u8>,
    r: Result<CloseExpiredTicketEffects, EventError>,
) -> bool {
    match r {
        Ok(eff) => {
            &&& close_expired_ticket_error(accs, event_id, ticket_id, now, program_id) is None
            &&& ops_views(eff.ops) == close_expired_ops_spec(accs)
        },
        Err(e) => close_expired_ticket_error(accs, event_id, ticket_id, now, program_id)
            == Some(e),
    }
}

/// Reclaim an expired ticket and its accounts; admin-signed, only after
/// the event has ended.
pub fn close_expired_ticket_handler(
    accs: &CloseExpiredTicket,
    event_id: u64,
    ticket_id: u64,
    now: i64,
    program_id: &Vec<u8>,
) -> (r: Result<CloseExpiredTicketEffects, EventError>)
    requires
        accs.wf(),
        program_id@.len() == 32,
    ensures
        close_expired_ticket_post(*accs, event_id, ticket_id, now, program_id@, r),
{
    if !check_pda_with_bump(
        &accs.event_addr,
        accs.event.bump,
        event_seeds(&accs.admin.addr, event_id),
        program_id,
    ) {
        return Err(EventError::AddressMismatch);
    }
    if !check_pda_with_bump(
        &accs.ticket_addr,
        accs.ticket.bump,
        ticket_seeds(&accs.event_addr, ticket_id),
        program_id,
    ) {
        return Err(EventError::AddressMismatch);
    }
    if !bytes_eq(&accs.ticket.event, &accs.event_addr) {
        return Err(EventError::AddressMismatch);
    }
    if !bytes_eq(&accs.ticket_mint_addr, &accs.ticket.mint) {
        return Err(EventError::AddressMismatch);
    }
    if !check_pda(
        &accs.ticket_mint_addr,
        ticket_mint_seeds(&accs.event_addr, ticket_id),
        program_id,
    ) {
        return Err(EventError::AddressMismatch);
    }
    if !bytes_eq(&accs.mint_permanent_delegate, &accs.admin.addr) {
        return Err(EventError::AuthorityMismatch);
    }
    if !bytes_eq(&accs.mint_close_authority, &accs.admin.addr) {
        return Err(EventError::AuthorityMismatch);
    }
    if !bytes_eq(&accs.mint_transfer_hook_program, program_id) {
        return Err(EventError::AuthorityMismatch);
    }
    if !check_pda(
        &accs.ticket_ownership_addr,
        ticket_ownership_seeds(&accs.ticket_mint_addr),
        program_id,
    ) {
        return Err(EventError::AddressMismatch);
    }
    if !check_pda(
        &accs.ticket_ata_addr,
        ata_seeds(&accs.ticket_ownership.owner, &accs.token_program, &accs.ticket_mint_addr),
        &accs.associated_token_program,
    ) {
        return Err(EventError::AddressMismatch);
    }
    if !accs.admin.is_signer {
        return Err(EventError::Unauthorized);
    }
    if !bytes_eq(&accs.admin.addr, &accs.event.admin) {
        return Err(EventError::AuthorityMismatch);
    }
    if now <= accs.event.end_time {
        return Err(EventError::EventNotEnded);
    }
    let mut ops: Vec<TokenOp> = Vec::new();
    ops.push(TokenOp::Burn {
        mint: copy_bytes(&accs.ticket_mint_addr),
        from: copy_bytes(&accs.ticket_ata_addr),
        authority: copy_bytes(&accs.admin.addr),
        amount: 1,
    });
    ops.push(TokenOp::CloseMint {
        account: copy_bytes(&accs.ticket_mint_addr),
        destination: copy_bytes(&accs.admin.addr),
        authority: copy_bytes(&accs.admin.addr),
    });
    ops.push(TokenOp::ClosePda {
        account: copy_bytes(&accs.ticket_addr),
        destination: copy_bytes(&accs.admin.addr),
    });
    ops.push(TokenOp::ClosePda {
        account: copy_bytes(&accs.ticket_ownership_addr),
        destination: copy_bytes(&accs.admin.addr),
    });
    proof {
        assert(ops_views(ops) =~~= close_expired_ops_spec(*accs));
    }
    Ok(CloseExpiredTicketEffects { ops: ops })
}

} // verus!
