//! The persisted record types, one per entity kind, with their
//! mathematical views and well-formedness invariants.  Addresses are held
//! as raw 32-byte strings; text fields are held as the byte strings that
//! the fixed-layout records store.

use vstd::prelude::*;

use crate::bytes::copy_bytes;

verus! {

/// A 32-byte account address.
pub open spec fn is_addr(a: Seq<u8>) -> bool {
    a.len() == 32
}

/// The all-zero address a freshly allocated record carries before this
/// program fills it.
pub open spec fn spec_zero_addr() -> Seq<u8> {
    Seq::new(32, |i: int| 0u8)
}

/// Build the all-zero address.
pub fn zero_addr() -> (r: Vec<u8>)
    ensures
        r@ == spec_zero_addr(),
{
    let mut r: Vec<u8> = Vec::new();
    let mut i: usize = 0;
    while i < 32
        invariant
            0 <= i <= 32,
            r@.len() == i,
            forall|k: int| 0 <= k < i ==> r@[k] == 0u8,
        decreases 32 - i,
    {
        r.push(0);
        i += 1;
    }
    assert(r@ =~= spec_zero_addr());
    r
}

/// Per-admin sequence generator for event ids.
#[derive(Debug)]
pub struct EventCounter {
    /// The administrator this counter belongs to.
    pub admin: Vec<u8>,
    /// The id the next event created by this admin will carry.
    pub next_event_id: u64,
}

pub ghost struct EventCounterView {
    pub admin: Seq<u8>,
    pub next_event_id: u64,
}

impl View for EventCounter {
    type V = EventCounterView;

    open spec fn view(&self) -> EventCounterView {
        EventCounterView { admin: self.admin@, next_event_id: self.next_event_id }
    }
}

impl EventCounterView {
    pub open spec fn wf(self) -> bool {
        is_addr(self.admin)
    }
}

/// One ticketed event.
#[derive(Debug)]
pub struct Event {
    /// The sequential id of the event, a derivation seed.
    pub id: u64,
    /// The administrator who created and manages the event.
    pub admin: Vec<u8>,
    /// The derived address holding the proceeds of ticket sales.
    pub vault: Vec<u8>,
    /// Name of the event, 3 to 100 bytes.
    pub name: Vec<u8>,
    /// Symbol used in the ticket token metadata, at most 10 bytes.
    pub symbol: Vec<u8>,
    /// Description, at most 500 bytes.
    pub description: Vec<u8>,
    /// Metadata URI of the ticket tokens, at most 200 bytes.
    pub metadata_uri: Vec<u8>,
    /// Unix timestamp at which the event starts.
    pub start_time: i64,
    /// Unix timestamp at which the event ends.
    pub end_time: i64,
    /// Price of one ticket in lamports, positive.
    pub ticket_price: u64,
    /// Total number of tickets offered, positive.
    pub total_tickets: u64,
    /// Number of tickets sold so far; also the id of the next ticket.
    pub tickets_sold: u64,
    /// Number of tickets returned for a refund.
    pub tickets_returned: u64,
    /// Bump of the event's derived address.
    pub bump: u8,
}

pub ghost struct EventView {
    pub id: u64,
    pub admin: Seq<u8>,
    pub vault: Seq<u8>,
    pub name: Seq<u8>,
    pub symbol: Seq<u8>,
    pub description: Seq<u8>,
    pub metadata_uri: Seq<u8>,
    pub start_time: i64,
    pub end_time: i64,
    pub ticket_price: u64,
    pub total_tickets: u64,
    pub tickets_sold: u64,
    pub tickets_returned: u64,
    pub bump: u8,
}

impl View for Event {
    type V = EventView;

    open spec fn view(&self) -> EventView {
        EventView {
            id: self.id,
            admin: self.admin@,
            vault: self.vault@,
            name: self.name@,
            symbol: self.symbol@,
            description: self.description@,
            metadata_uri: self.metadata_uri@,
            start_time: self.start_time,
            end_time: self.end_time,
            ticket_price: self.ticket_price,
            total_tickets: self.total_tickets,
            tickets_sold: self.tickets_sold,
            tickets_returned: self.tickets_returned,
            bump: self.bump,
        }
    }
}

impl EventView {
    /// The central capacity bound: returned tickets replenish sellable
    /// capacity, and sales never outrun it.
    pub open spec fn capacity_ok(self) -> bool {
        self.tickets_sold <= self.total_tickets + self.tickets_returned
    }

    pub open spec fn wf(self) -> bool {
        &&& is_addr(self.admin)
        &&& is_addr(self.vault)
        &&& 3 <= self.name.len() <= 100
        &&& self.symbol.len() <= 10
        &&& self.description.len() <= 500
        &&& self.metadata_uri.len() <= 200
        &&& self.start_time < self.end_time
        &&& self.ticket_price > 0
        &&& self.total_tickets > 0
        &&& self.capacity_ok()
    }
}

/// One sold ticket.
#[derive(Debug)]
pub struct Ticket {
    /// The sequential id of the ticket within its event, a derivation seed.
    pub id: u64,
    /// Address of the event the ticket belongs to.
    pub event: Vec<u8>,
    /// Address of the token mint representing the ticket.
    pub mint: Vec<u8>,
    /// Unix timestamp after which the ticket can no longer be used or
    /// returned; equals the event's end time.
    pub valid_until: i64,
    /// Whether the ticket has been redeemed.
    pub used: bool,
    /// Bump of the ticket's derived address.
    pub bump: u8,
}

pub ghost struct TicketView {
    pub id: u64,
    pub event: Seq<u8>,
    pub mint: Seq<u8>,
    pub valid_until: i64,
    pub used: bool,
    pub bump: u8,
}

impl View for Ticket {
    type V = TicketView;

    open spec fn view(&self) -> TicketView {
        TicketView {
            id: self.id,
            event: self.event@,
            mint: self.mint@,
            valid_until: self.valid_until,
            used: self.used,
            bump: self.bump,
        }
    }
}

impl TicketView {
    pub open spec fn wf(self) -> bool {
        &&& is_addr(self.event)
        &&& is_addr(self.mint)
    }
}

/// Indirection record tracking the current holder of a ticket mint,
/// refreshed by the transfer observer on every token movement.
#[derive(Debug)]
pub struct TicketOwnership {
    /// The current holder of the ticket token.
    pub owner: Vec<u8>,
    /// Address of the ticket record.
    pub ticket: Vec<u8>,
    /// Address of the ticket's token mint.
    pub mint: Vec<u8>,
}

pub ghost struct TicketOwnershipView {
    pub owner: Seq<u8>,
    pub ticket: Seq<u8>,
    pub mint: Seq<u8>,
}

impl View for TicketOwnership {
    type V = TicketOwnershipView;

    open spec fn view(&self) -> TicketOwnershipView {
        TicketOwnershipView { owner: self.owner@, ticket: self.ticket@, mint: self.mint@ }
    }
}

impl TicketOwnershipView {
    pub open spec fn wf(self) -> bool {
        &&& is_addr(self.owner)
        &&& is_addr(self.ticket)
        &&& is_addr(self.mint)
    }
}

/// An event's vault carries no typed payload beyond its discriminator; its
/// balance lives in the runtime's lamport ledger.
#[derive(Debug)]
pub struct EventVault {}

impl Event {
    /// Copy of the record image, field for field.
    pub fn dup(&self) -> (r: Event)
        ensures
            r@ == self@,
    {
        Event {
            id: self.id,
            admin: copy_bytes(&self.admin),
            vault: copy_bytes(&self.vault),
            name: copy_bytes(&self.name),
            symbol: copy_bytes(&self.symbol),
            description: copy_bytes(&self.description),
            metadata_uri: copy_bytes(&self.metadata_uri),
            start_time: self.start_time,
            end_time: self.end_time,
            ticket_price: self.ticket_price,
            total_tickets: self.total_tickets,
            tickets_sold: self.tickets_sold,
            tickets_returned: self.tickets_returned,
            bump: self.bump,
        }
    }
}

} // verus!
