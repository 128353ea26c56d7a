//! Redeeming a ticket: the event admin marks a still-valid, unused
//! ticket as used.  A second redemption of the same ticket fails; the
//! flag flips exactly once.

use vstd::prelude::*;

use crate::accounts::UseTicket;
use crate::bytes::bytes_eq;
use crate::errors::EventError;
use crate::pda::{event_seeds, event_seeds_spec, is_pda_with_bump, ticket_seeds, ticket_seeds_spec};
use crate::state::{Ticket, TicketView};
use crate::validate::check_pda_with_bump;

verus! {

/// The error `use_ticket` aborts with, or `None` when it succeeds:
/// derivations of the event (under the signing admin) and the ticket,
/// the ticket's back-reference to the event, the admin's signature and
/// identity, then the ticket's validity window and its used flag.
pub open spec fn use_ticket_error(
    accs: UseTicket,
    ticket: TicketView,
    event_id: u64,
    ticket_id: u64,
    now: i64,
    program_id: Seq<u8>,
) -> Option<EventError> {
    if !is_pda_with_bump(
        accs.event_addr@,
        accs.event@.bump,
        event_seeds_spec(accs.admin.addr@, event_id),
        program_id,
    ) {
        Some(EventError::AddressMismatch)
    } else if !is_pda_with_bump(
        accs.ticket_addr@,
        ticket.bump,
        ticket_seeds_spec(accs.event_addr@, ticket_id),
        program_id,
    ) {
        Some(EventError::AddressMismatch)
    } else if ticket.event != accs.event_addr@ {
        Some(EventError::AddressMismatch)
    } else if !accs.admin.is_signer {
        Some(EventError::Unauthorized)
    } else if accs.admin.addr@ != accs.event@.admin {
        Some(EventError::AuthorityMismatch)
    } else if now > ticket.valid_until {
        Some(EventError::TicketExpired)
    } else if ticket.used {
        Some(EventError::TicketAlreadyUsed)
    } else {
        None
    }
}

/// Mark a ticket as used; admin-signed, never a silent no-op.
pub fn use_ticket_handler(
    accs: &UseTicket,
    ticket: &mut Ticket,
    event_id: u64,
    ticket_id: u64,
    now: i64,
    program_id: &Vec<u8>,
) -> (r: Result<(), EventError>)
    requires
        accs.wf(),
        old(ticket)@.wf(),
        program_id@.len() == 32,
    ensures
        (match r {
            Ok(()) => {
                &&& use_ticket_error(*accs, old(ticket)@, event_id, ticket_id, now, program_id@)
                    is None
                &&& final(ticket)@ == (TicketView { used: true, ..old(ticket)@ })
                &&& !old(ticket)@.used
            },
            Err(e) => {
                &&& use_ticket_error(*accs, old(ticket)@, event_id, ticket_id, now, program_id@)
                    == Some(e)
                &&& final(ticket)@ == old(ticket)@
            },
        }),
{
    if !check_pda_with_bump(
        &accs.event_addr,
        accs.event.bump,
        event_seeds(&accs.admin.addr, event_id),
        program_id,
    ) {
        return Err(EventError::AddressMismatch);
    }
    if !check_pda_with_bump(
        &accs.ticket_addr,
        ticket.bump,
        ticket_seeds(&accs.event_addr, ticket_id),
        program_id,
    ) {
        return Err(EventError::AddressMismatch);
    }
    if !bytes_eq(&ticket.event, &accs.event_addr) {
        return Err(EventError::AddressMismatch);
    }
    if !accs.admin.is_signer {
        return Err(EventError::Unauthorized);
    }
    if !bytes_eq(&accs.admin.addr, &accs.event.admin) {
        return Err(EventError::AuthorityMismatch);
    }
    if now > ticket.valid_until {
        return Err(EventError::TicketExpired);
    }
    if ticket.used {
        return Err(EventError::TicketAlreadyUsed);
    }
    ticket.used = true;
    Ok(())
}

} // verus!
