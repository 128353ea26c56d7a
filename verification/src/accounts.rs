//! The per-instruction account contexts.
//!
//! Each instruction receives the set of accounts the caller supplied,
//! already decoded by the runtime shim: typed record images for accounts
//! this program owns, raw addresses for the rest, and lamport balances
//! where the instruction moves funds.  Nothing here is assumed authentic:
//! the validator re-derives and re-checks every account on every call.

use vstd::prelude::*;

use crate::state::{is_addr, Event, EventCounter, Ticket, TicketOwnership};

verus! {

/// A transaction participant: an address, its lamport balance, and
/// whether the transaction carries its signature.
#[derive(Debug)]
pub struct Signer {
    pub addr: Vec<u8>,
    pub lamports: u64,
    pub is_signer: bool,
}

/// An account of which only the address and the lamport balance matter.
#[derive(Debug)]
pub struct AccountRef {
    pub addr: Vec<u8>,
    pub lamports: u64,
}

/// Accounts supplied to `create_event`.
pub struct CreateEvent {
    /// The admin's counter record; all zeroes when it was just allocated.
    pub event_counter: EventCounter,
    /// Address the counter record was supplied at.
    pub event_counter_addr: Vec<u8>,
    /// Address the new event record will be allocated at.
    pub event_addr: Vec<u8>,
    /// Address the new vault will be allocated at.
    pub vault_addr: Vec<u8>,
    /// The administrator creating the event; must sign.
    pub admin: Signer,
}

impl CreateEvent {
    /// Validity of the decoded images: addresses are 32 bytes and records
    /// satisfy their invariants.
    pub open spec fn wf(self) -> bool {
        &&& self.event_counter@.wf()
        &&& is_addr(self.event_counter_addr@)
        &&& is_addr(self.event_addr@)
        &&& is_addr(self.vault_addr@)
        &&& is_addr(self.admin.addr@)
    }
}

/// Accounts supplied to `mint_ticket`.
pub struct MintTicket {
    /// The event to sell a ticket for.
    pub event: Event,
    /// Address the event record was supplied at.
    pub event_addr: Vec<u8>,
    /// The event's vault, receiver of the payment.
    pub event_vault: AccountRef,
    /// The buyer; must sign and pay.
    pub buyer: Signer,
    /// Address the new ticket record will be allocated at.
    pub ticket_addr: Vec<u8>,
    /// Address the new token mint will be allocated at.
    pub ticket_mint_addr: Vec<u8>,
    /// Address of the transfer-observer registration record of the mint.
    pub extra_account_meta_list_addr: Vec<u8>,
    /// Address of the new ownership record of the mint.
    pub ticket_ownership_addr: Vec<u8>,
    /// The buyer's associated token account for the new mint.
    pub buyer_ticket_ata_addr: Vec<u8>,
    /// Identity of the token program the mint lives under.
    pub token_program: Vec<u8>,
    /// Identity of the associated-token program.
    pub associated_token_program: Vec<u8>,
}

impl MintTicket {
    /// Validity of the decoded images: addresses are 32 bytes and records
    /// satisfy their invariants.
    pub open spec fn wf(self) -> bool {
        &&& self.event@.wf()
        &&& is_addr(self.event_addr@)
        &&& is_addr(self.event_vault.addr@)
        &&& is_addr(self.buyer.addr@)
        &&& is_addr(self.ticket_addr@)
        &&& is_addr(self.ticket_mint_addr@)
        &&& is_addr(self.extra_account_meta_list_addr@)
        &&& is_addr(self.ticket_ownership_addr@)
        &&& is_addr(self.buyer_ticket_ata_addr@)
        &&& is_addr(self.token_program@)
        &&& is_addr(self.associated_token_program@)
    }
}

/// Accounts supplied to `use_ticket`; the mutated ticket record itself is
/// passed to the handler separately.
pub struct UseTicket {
    /// The event the ticket belongs to.
    pub event: Event,
    /// Address the event record was supplied at.
    pub event_addr: Vec<u8>,
    /// Address the ticket record was supplied at.
    pub ticket_addr: Vec<u8>,
    /// The event administrator; must sign.
    pub admin: Signer,
}

impl UseTicket {
    /// Validity of the decoded images: addresses are 32 bytes and records
    /// satisfy their invariants.
    pub open spec fn wf(self) -> bool {
        &&& self.event@.wf()
        &&& is_addr(self.event_addr@)
        &&& is_addr(self.ticket_addr@)
        &&& is_addr(self.admin.addr@)
    }
}

/// Accounts supplied to `return_ticket`.
pub struct ReturnTicket {
    /// The event the ticket belongs to.
    pub event: Event,
    /// Address the event record was supplied at.
    pub event_addr: Vec<u8>,
    /// The event's vault, source of the refund.
    pub event_vault: AccountRef,
    /// The ticket being returned; closed on success.
    pub ticket: Ticket,
    /// Address the ticket record was supplied at.
    pub ticket_addr: Vec<u8>,
    /// Address of the ticket's token mint.
    pub ticket_mint_addr: Vec<u8>,
    /// The holder returning the ticket; must sign, receives the refund.
    pub signer: Signer,
    /// The holder's associated token account for the mint.
    pub signer_ticket_ata_addr: Vec<u8>,
    /// Identity of the token program the mint lives under.
    pub token_program: Vec<u8>,
    /// Identity of the associated-token program.
    pub associated_token_program: Vec<u8>,
}

impl ReturnTicket {
    /// Validity of the decoded images: addresses are 32 bytes and records
    /// satisfy their invariants.
    pub open spec fn wf(self) -> bool {
        &&& self.event@.wf()
        &&& self.ticket@.wf()
        &&& is_addr(self.event_addr@)
        &&& is_addr(self.event_vault.addr@)
        &&& is_addr(self.ticket_addr@)
        &&& is_addr(self.ticket_mint_addr@)
        &&& is_addr(self.signer.addr@)
        &&& is_addr(self.signer_ticket_ata_addr@)
        &&& is_addr(self.token_program@)
        &&& is_addr(self.associated_token_program@)
    }
}

/// Accounts supplied to `close_expired_ticket`.
pub struct CloseExpiredTicket {
    /// The event the ticket belongs to.
    pub event: Event,
    /// Address the event record was supplied at.
    pub event_addr: Vec<u8>,
    /// The ticket being reclaimed; closed on success.
    pub ticket: Ticket,
    /// Address the ticket record was supplied at.
    pub ticket_addr: Vec<u8>,
    /// Address of the ticket's token mint; closed on success.
    pub ticket_mint_addr: Vec<u8>,
    /// The permanent-delegate authority recorded on the mint.
    pub mint_permanent_delegate: Vec<u8>,
    /// The close authority recorded on the mint.
    pub mint_close_authority: Vec<u8>,
    /// The transfer-observer program recorded on the mint.
    pub mint_transfer_hook_program: Vec<u8>,
    /// The ownership record of the mint; closed on success.
    pub ticket_ownership: TicketOwnership,
    /// Address the ownership record was supplied at.
    pub ticket_ownership_addr: Vec<u8>,
    /// The current holder's associated token account for the mint.
    pub ticket_ata_addr: Vec<u8>,
    /// The event administrator; must sign, acts as permanent delegate and
    /// close authority of the mint.
    pub admin: Signer,
    /// Identity of the token program the mint lives under.
    pub token_program: Vec<u8>,
    /// Identity of the associated-token program.
    pub associated_token_program: Vec<u8>,
}

impl CloseExpiredTicket {
    /// Validity of the decoded images: addresses are 32 bytes and records
    /// satisfy their invariants.
    pub open spec fn wf(self) -> bool {
        &&& self.event@.wf()
        &&& self.ticket@.wf()
        &&& self.ticket_ownership@.wf()
        &&& is_addr(self.event_addr@)
        &&& is_addr(self.ticket_addr@)
        &&& is_addr(self.ticket_mint_addr@)
        &&& is_addr(self.mint_permanent_delegate@)
        &&& is_addr(self.mint_close_authority@)
        &&& is_addr(self.mint_transfer_hook_program@)
        &&& is_addr(self.ticket_ownership_addr@)
        &&& is_addr(self.ticket_ata_addr@)
        &&& is_addr(self.admin.addr@)
        &&& is_addr(self.token_program@)
        &&& is_addr(self.associated_token_program@)
    }
}

/// Accounts supplied to `withdraw_funds`.
pub struct WithdrawFunds {
    /// The event being closed.
    pub event: Event,
    /// Address the event record was supplied at.
    pub event_addr: Vec<u8>,
    /// The event's vault; closed on success.
    pub event_vault: AccountRef,
    /// The event administrator; must sign, receives rent and funds.
    pub admin: Signer,
    /// Optional alternate destination for the vault balance.
    pub destination_vault: Option<AccountRef>,
}

impl WithdrawFunds {
    /// Validity of the decoded images: addresses are 32 bytes and records
    /// satisfy their invariants.
    pub open spec fn wf(self) -> bool {
        &&& self.event@.wf()
        &&& is_addr(self.event_addr@)
        &&& is_addr(self.event_vault.addr@)
        &&& is_addr(self.admin.addr@)
        &&& (self.destination_vault matches Some(d) ==> is_addr(d.addr@))
    }
}

/// Accounts supplied to the transfer observer; the mutated ownership
/// record itself is passed to the handler separately.
pub struct TransferHook {
    /// Raw image of the source token account of the in-flight transfer.
    pub source_token_data: Vec<u8>,
    /// Address of the mint whose token is moving.
    pub mint_addr: Vec<u8>,
    /// Raw image of the destination token account.
    pub destination_token_data: Vec<u8>,
    /// Address of the transfer-observer registration record.
    pub extra_account_meta_list_addr: Vec<u8>,
    /// Address the ownership record was supplied at.
    pub ticket_ownership_addr: Vec<u8>,
}

} // verus!
