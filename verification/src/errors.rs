//! The typed errors that an instruction can abort with.

use vstd::prelude::*;

verus! {

/// Every failure of an instruction is one of these values; the runtime
/// commits no account mutation when an instruction returns an error.
#[derive(Clone, Copy, Debug, PartialEq, Eq, Structural)]
pub enum EventError {
    /// Event name shorter than three bytes.
    NameTooShort,
    /// Event name longer than one hundred bytes.
    NameTooLong,
    /// Event symbol longer than ten bytes.
    SymbolTooLong,
    /// Event description longer than five hundred bytes.
    DescriptionTooLong,
    /// Metadata URI longer than two hundred bytes.
    UriTooLong,
    /// The event's end time does not lie after its start time.
    InvalidEventTime,
    /// The total number of tickets is zero.
    InvalidTicketCount,
    /// The event has already ended.
    EventEnded,
    /// The action is allowed only after the event has ended.
    EventNotEnded,
    /// The ticket price is zero.
    InvalidTicketPrice,
    /// The buyer does not hold enough lamports for the ticket price.
    InsufficientFunds,
    /// No sellable capacity is left for this event.
    EventSoldOut,
    /// The ticket has already been marked as used.
    TicketAlreadyUsed,
    /// The ticket's validity window has passed.
    TicketExpired,
    /// The signer is not the recorded holder of this ticket.
    TicketHolderMismatch,
    /// A checked arithmetic operation overflowed.
    NumericOverflow,
    /// An authority field does not match the expected identity.
    AuthorityMismatch,
    /// The signer is not authorized to perform this action.
    Unauthorized,
    /// A supplied account address does not re-derive from its seeds.
    AddressMismatch,
    /// A token account image could not be read.
    MalformedTokenAccount,
    /// The transfer observer was invoked outside of an in-flight transfer.
    ProgramCalledOutsideOfTransfer,
}

} // verus!
