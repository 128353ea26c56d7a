//! The instruction surface: one entry point per instruction, as the
//! runtime shim dispatches them.  Each forwards to its handler and
//! carries the same contract.

use vstd::prelude::*;

use crate::accounts::{
    CloseExpiredTicket, CreateEvent, MintTicket, ReturnTicket, TransferHook, UseTicket,
    WithdrawFunds,
};
use crate::close_expired_ticket::{
    close_expired_ticket_handler, close_expired_ticket_post, CloseExpiredTicketEffects,
};
use crate::create_event::{create_event_handler, create_event_post, CreateEventEffects};
use crate::errors::EventError;
use crate::mint_ticket::{mint_ticket_handler, mint_ticket_post, MintTicketEffects};
use crate::return_ticket::{return_ticket_handler, return_ticket_post, ReturnTicketEffects};
use crate::state::{is_addr, Ticket, TicketOwnership, TicketOwnershipView, TicketView};
use crate::transfer_hook::{destination_owner, transfer_hook_error, transfer_hook_handler};
use crate::use_ticket::{use_ticket_error, use_ticket_handler};
use crate::withdraw_funds::{withdraw_funds_handler, withdraw_funds_post, WithdrawFundsEffects};

verus! {

/// Create a new event numbered by the admin's counter.
pub fn create_event(
    accs: &CreateEvent,
    name: Vec<u8>,
    symbol: Vec<u8>,
    description: Vec<u8>,
    metadata_uri: Vec<u8>,
    start_time: i64,
    end_time: i64,
    ticket_price: u64,
    total_tickets: u64,
    program_id: &Vec<u8>,
) -> (r: Result<CreateEventEffects, EventError>)
    requires
        accs.wf(),
        program_id@.len() == 32,
    ensures
        create_event_post(
            *accs,
            name@,
            symbol@,
            description@,
            metadata_uri@,
            start_time,
            end_time,
            ticket_price,
            total_tickets,
            program_id@,
            r,
        ),
        (r matches Ok(eff) ==> eff.event@.wf() && eff.event_counter@.wf()),
{
    create_event_handler(
        accs,
        name,
        symbol,
        description,
        metadata_uri,
        start_time,
        end_time,
        ticket_price,
        total_tickets,
        program_id,
    )
}

/// Sell one ticket of the event to the signing buyer.
pub fn mint_ticket(accs: &MintTicket, event_id: u64, now: i64, program_id: &Vec<u8>) -> (r:
    Result<MintTicketEffects, EventError>)
    requires
        accs.wf(),
        program_id@.len() == 32,
    ensures
        mint_ticket_post(*accs, event_id, now, program_id@, r),
        (r matches Ok(eff) ==> eff.event@.wf() && eff.ticket@.wf() && eff.ticket_ownership@.wf()),
{
    mint_ticket_handler(accs, event_id, now, program_id)
}

/// Invoked by the token runtime during a transfer of a ticket token.
pub fn transfer_hook(
    accs: &TransferHook,
    ticket_ownership: &mut TicketOwnership,
    amount: u64,
    program_id: &Vec<u8>,
) -> (r: Result<(), EventError>)
    requires
        is_addr(program_id@),
    ensures
        (match r {
            Ok(()) => {
                &&& transfer_hook_error(*accs, program_id@) is None
                &&& final(ticket_ownership)@ == (TicketOwnershipView {
                    owner: destination_owner(*accs),
                    ..old(ticket_ownership)@
                })
            },
            Err(e) => {
                &&& transfer_hook_error(*accs, program_id@) == Some(e)
                &&& final(ticket_ownership)@ == old(ticket_ownership)@
            },
        }),
{
    transfer_hook_handler(accs, ticket_ownership, amount, program_id)
}

/// Mark a ticket as used; admin-signed, never a silent no-op.
pub fn use_ticket(
    accs: &UseTicket,
    ticket: &mut Ticket,
    event_id: u64,
    ticket_id: u64,
    now: i64,
    program_id: &Vec<u8>,
) -> (r: Result<(), EventError>)
    requires
        accs.wf(),
        old(ticket)@.wf(),
        program_id@.len() == 32,
    ensures
        (match r {
            Ok(()) => {
                &&& use_ticket_error(*accs, old(ticket)@, event_id, ticket_id, now, program_id@)
                    is None
                &&& final(ticket)@ == (TicketView { used: true, ..old(ticket)@ })
                &&& !old(ticket)@.used
            },
            Err(e) => {
                &&& use_ticket_error(*accs, old(ticket)@, event_id, ticket_id, now, program_id@)
                    == Some(e)
                &&& final(ticket)@ == old(ticket)@
            },
        }),
{
    use_ticket_handler(accs, ticket, event_id, ticket_id, now, program_id)
}

/// Reclaim an expired ticket and its accounts; admin-signed.
pub fn close_expired_ticket(
    accs: &CloseExpiredTicket,
    event_id: u64,
    ticket_id: u64,
    now: i64,
    program_id: &Vec<u8>,
) -> (r: Result<CloseExpiredTicketEffects, EventError>)
    requires
        accs.wf(),
        program_id@.len() == 32,
    ensures
        close_expired_ticket_post(*accs, event_id, ticket_id, now, program_id@, r),
{
    close_expired_ticket_handler(accs, event_id, ticket_id, now, program_id)
}

/// Withdraw the proceeds and close the event; admin-signed.
pub fn withdraw_funds(accs: &WithdrawFunds, event_id: u64, now: i64, program_id: &Vec<u8>) -> (r:
    Result<WithdrawFundsEffects, EventError>)
    requires
        accs.wf(),
        program_id@.len() == 32,
    ensures
        withdraw_funds_post(*accs, event_id, now, program_id@, r),
{
    withdraw_funds_handler(accs, event_id, now, program_id)
}

/// Return a ticket for a refund of exactly the ticket price.
pub fn return_ticket(
    accs: &ReturnTicket,
    event_id: u64,
    ticket_id: u64,
    now: i64,
    program_id: &Vec<u8>,
) -> (r: Result<ReturnTicketEffects, EventError>)
    requires
        accs.wf(),
        program_id@.len() == 32,
    ensures
        return_ticket_post(*accs, event_id, ticket_id, now, program_id@, r),
        (r matches Ok(eff) ==> eff.event@.wf()),
{
    return_ticket_handler(accs, event_id, ticket_id, now, program_id)
}

} // verus!
