//! The laws of the lifecycle state machine, each proved from the
//! instruction contracts: the capacity bound is established at creation
//! and preserved by every instruction that touches the counters, a full
//! house rejects a mint, an ended event rejects a mint, a used ticket is
//! neither redeemed nor returned twice, and an expired ticket is not
//! returned.

use vstd::prelude::*;

use crate::accounts::{CreateEvent, MintTicket, ReturnTicket, UseTicket};
use crate::create_event::created_event;
use crate::errors::EventError;
use crate::mint_ticket::{mint_accounts_ok, mint_ticket_error, minted_event};
use crate::return_ticket::{return_accounts_ok, return_ticket_error, returned_event};
use crate::state::{EventView, TicketView};
use crate::use_ticket::use_ticket_error;

verus! {

/// A newly created event satisfies the capacity bound: nothing is sold
/// yet.  The instructions that do not touch the sales counters (use,
/// close, withdraw, the transfer observer) leave the bound untouched by
/// construction, since their effects carry no event image.
pub proof fn lemma_create_event_establishes_capacity(
    accs: CreateEvent,
    name: Seq<u8>,
    symbol: Seq<u8>,
    description: Seq<u8>,
    metadata_uri: Seq<u8>,
    start_time: i64,
    end_time: i64,
    ticket_price: u64,
    total_tickets: u64,
    program_id: Seq<u8>,
)
    ensures
        created_event(
            accs,
            name,
            symbol,
            description,
            metadata_uri,
            start_time,
            end_time,
            ticket_price,
            total_tickets,
            program_id,
        ).capacity_ok(),
{
}

/// A sale under the capacity guard preserves the capacity bound: the
/// incremented sales counter still does not outrun the offered tickets
/// plus the returned ones.
pub proof fn lemma_mint_preserves_capacity(e: EventView)
    requires
        e.tickets_sold < e.total_tickets + e.tickets_returned,
        e.tickets_sold < u64::MAX,
    ensures
        minted_event(e).capacity_ok(),
        minted_event(e).tickets_sold == e.tickets_sold + 1,
{
}

/// A return preserves the capacity bound, and frees one sellable slot:
/// the guard `tickets_sold < total_tickets + tickets_returned` is weaker
/// after the return than before it.
pub proof fn lemma_return_preserves_capacity(e: EventView)
    requires
        e.capacity_ok(),
        e.tickets_returned < u64::MAX,
    ensures
        returned_event(e).capacity_ok(),
        returned_event(e).tickets_returned == e.tickets_returned + 1,
        returned_event(e).tickets_sold == e.tickets_sold,
{
}

/// A mint on a full event fails with the sold-out error: when every
/// account check passes, the event has not ended, and the sales counter
/// has reached the offered plus returned tickets, the outcome is exactly
/// `EventSoldOut`; the handler mutates nothing on any error.
pub proof fn lemma_mint_sold_out_rejected(
    accs: MintTicket,
    event_id: u64,
    now: i64,
    program_id: Seq<u8>,
)
    requires
        mint_accounts_ok(accs, event_id, program_id),
        now < accs.event@.end_time,
        accs.event@.tickets_sold == accs.event@.total_tickets + accs.event@.tickets_returned,
    ensures
        mint_ticket_error(accs, event_id, now, program_id) == Some(EventError::EventSoldOut),
{
}

/// A mint at or after the event's end fails with the event-ended error.
pub proof fn lemma_mint_after_end_rejected(
    accs: MintTicket,
    event_id: u64,
    now: i64,
    program_id: Seq<u8>,
)
    requires
        mint_accounts_ok(accs, event_id, program_id),
        now >= accs.event@.end_time,
    ensures
        mint_ticket_error(accs, event_id, now, program_id) == Some(EventError::EventEnded),
{
}

/// Redemption is not idempotent: once a call of `use_ticket` succeeds,
/// a second call on the resulting ticket fails with the already-used
/// error for as long as the ticket is within its validity window; the
/// used flag flips exactly once.
pub proof fn lemma_use_ticket_second_call_rejected(
    accs: UseTicket,
    ticket: TicketView,
    event_id: u64,
    ticket_id: u64,
    now: i64,
    later: i64,
    program_id: Seq<u8>,
)
    requires
        use_ticket_error(accs, ticket, event_id, ticket_id, now, program_id) is None,
        later <= ticket.valid_until,
    ensures
        use_ticket_error(
            accs,
            (TicketView { used: true, ..ticket }),
            event_id,
            ticket_id,
            later,
            program_id,
        ) == Some(EventError::TicketAlreadyUsed),
{
}

/// A return after the ticket's validity window fails with the expired
/// error, whatever the used flag says.
pub proof fn lemma_return_expired_rejected(
    accs: ReturnTicket,
    event_id: u64,
    ticket_id: u64,
    now: i64,
    program_id: Seq<u8>,
)
    requires
        return_accounts_ok(accs, event_id, ticket_id, program_id),
        now > accs.ticket@.valid_until,
    ensures
        return_ticket_error(accs, event_id, ticket_id, now, program_id) == Some(
            EventError::TicketExpired,
        ),
{
}

/// A return of a used ticket within its validity window fails with the
/// already-used error.
pub proof fn lemma_return_used_rejected(
    accs: ReturnTicket,
    event_id: u64,
    ticket_id: u64,
    now: i64,
    program_id: Seq<u8>,
)
    requires
        return_accounts_ok(accs, event_id, ticket_id, program_id),
        now <= accs.ticket@.valid_until,
        accs.ticket@.used,
    ensures
        return_ticket_error(accs, event_id, ticket_id, now, program_id) == Some(
            EventError::TicketAlreadyUsed,
        ),
{
}

} // verus!
