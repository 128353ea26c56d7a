//! Creating a new event: validates the argument tuple, re-derives the
//! counter, event and vault addresses, seeds the new event record and
//! advances the admin's counter.

use vstd::prelude::*;

use crate::accounts::CreateEvent;
use crate::bytes::copy_bytes;
use crate::errors::EventError;
use crate::pda::{
    derive_address, event_counter_seeds, event_counter_seeds_spec, event_seeds, event_seeds_spec, is_pda,
    pda_bump, vault_seeds, vault_seeds_spec,
};
use crate::state::{spec_zero_addr, zero_addr, Event, EventCounter, EventCounterView, EventView};
use crate::validate::check_pda;

verus! {

/// The account images a successful `create_event` asks the runtime to
/// commit: the advanced (or freshly seeded) counter and the new event
/// record.  The vault is allocated empty at its derived address.
#[derive(Debug)]
pub struct CreateEventEffects {
    pub event_counter: EventCounter,
    pub event: Event,
}

/// The first argument check that fails, in the order the checks run.
pub open spec fn event_args_error(
    name: Seq<u8>,
    symbol: Seq<u8>,
    description: Seq<u8>,
    metadata_uri: Seq<u8>,
    start_time: i64,
    end_time: i64,
    ticket_price: u64,
    total_tickets: u64,
) -> Option<EventError> {
    if name.len() < 3 {
        Some(EventError::NameTooShort)
    } else if name.len() > 100 {
        Some(EventError::NameTooLong)
    } else if symbol.len() > 10 {
        Some(EventError::SymbolTooLong)
    } else if description.len() > 500 {
        Some(EventError::DescriptionTooLong)
    } else if metadata_uri.len() > 200 {
        Some(EventError::UriTooLong)
    } else if end_time <= start_time {
        Some(EventError::InvalidEventTime)
    } else if total_tickets == 0 {
        Some(EventError::InvalidTicketCount)
    } else if ticket_price == 0 {
        Some(EventError::InvalidTicketPrice)
    } else {
        None
    }
}

/// The error `create_event` aborts with, or `None` when it succeeds:
/// account checks first (derivations, then the admin's signature), then
/// the argument tuple, then the counter increment.
pub open spec fn create_event_error(
    accs: CreateEvent,
    name: Seq<u8>,
    symbol: Seq<u8>,
    description: Seq<u8>,
    metadata_uri: Seq<u8>,
    start_time: i64,
    end_time: i64,
    ticket_price: u64,
    total_tickets: u64,
    program_id: Seq<u8>,
) -> Option<EventError> {
    if !is_pda(
        accs.event_counter_addr@,
        event_counter_seeds_spec(accs.admin.addr@),
        program_id,
    ) {
        Some(EventError::AddressMismatch)
    } else if !is_pda(
        accs.event_addr@,
        event_seeds_spec(accs.admin.addr@, accs.event_counter.next_event_id),
        program_id,
    ) {
        Some(EventError::AddressMismatch)
    } else if !is_pda(accs.vault_addr@, vault_seeds_spec(accs.event_addr@), program_id) {
        Some(EventError::AddressMismatch)
    } else if !accs.admin.is_signer {
        Some(EventError::Unauthorized)
    } else {
        match event_args_error(
            name,
            symbol,
            description,
            metadata_uri,
            start_time,
            end_time,
            ticket_price,
            total_tickets,
        ) {
            Some(e) => Some(e),
            None => {
                if accs.event_counter.next_event_id == u64::MAX {
                    Some(EventError::NumericOverflow)
                } else {
                    None
                }
            },
        }
    }
}

/// The admin recorded on the counter after the call: a fresh, zeroed
/// counter is claimed by the signing admin; an existing one is kept.
pub open spec fn counter_admin_after(accs: CreateEvent) -> Seq<u8> {
    if accs.event_counter.admin@ == spec_zero_addr() {
        accs.admin.addr@
    } else {
        accs.event_counter.admin@
    }
}

/// The counter image after a successful call.
pub open spec fn updated_counter(accs: CreateEvent) -> EventCounterView {
    EventCounterView {
        admin: counter_admin_after(accs),
        next_event_id: (accs.event_counter.next_event_id + 1) as u64,
    }
}

/// The event record a successful call creates.
pub open spec fn created_event(
    accs: CreateEvent,
    name: Seq<u8>,
    symbol: Seq<u8>,
    description: Seq<u8>,
    metadata_uri: Seq<u8>,
    start_time: i64,
    end_time: i64,
    ticket_price: u64,
    total_tickets: u64,
    program_id: Seq<u8>,
) -> EventView {
    EventView {
        id: accs.event_counter.next_event_id,
        admin: accs.admin.addr@,
        vault: accs.vault_addr@,
        name: name,
        symbol: symbol,
        description: description,
        metadata_uri: metadata_uri,
        start_time: start_time,
        end_time: end_time,
        ticket_price: ticket_price,
        total_tickets: total_tickets,
        tickets_sold: 0,
        tickets_returned: 0,
        bump: pda_bump(
            event_seeds_spec(accs.admin.addr@, accs.event_counter.next_event_id),
            program_id,
        ),
    }
}

/// Everything `create_event` promises of its outcome.
pub open spec fn create_event_post(
    accs: CreateEvent,
    name: Seq<u8>,
    symbol: Seq<u8>,
    description: Seq<u8>,
    metadata_uri: Seq<u8>,
    start_time: i64,
    end_time: i64,
    ticket_price: u64,
    total_tickets: u64,
    program_id: Seq<u8>,
    r: Result<CreateEventEffects, EventError>,
) -> bool {
    match r {
        Ok(eff) => {
            &&& create_event_error(
                accs,
                name,
                symbol,
                description,
                metadata_uri,
                start_time,
                end_time,
                ticket_price,
                total_tickets,
                program_id,
            ) is None
            &&& eff.event@ == created_event(
                accs,
                name,
                symbol,
                description,
                metadata_uri,
                start_time,
                end_time,
                ticket_price,
                total_tickets,
                program_id,
            )
            &&& eff.event_counter@ == updated_counter(accs)
        },
        Err(e) => create_event_error(
            accs,
            name,
            symbol,
            description,
            metadata_uri,
            start_time,
            end_time,
            ticket_price,
            total_tickets,
            program_id,
        ) == Some(e),
    }
}

/// Create a new event numbered by the admin's counter.
pub fn create_event_handler(
    accs: &CreateEvent,
    name: Vec<u8>,
    symbol: Vec<u8>,
    description: Vec<u8>,
    metadata_uri: Vec<u8>,
    start_time: i64,
    end_time: i64,
    ticket_price: u64,
    total_tickets: u64,
    program_id: &Vec<u8>,
) -> (r: Result<CreateEventEffects, EventError>)
    requires
        accs.wf(),
        program_id@.len() == 32,
    ensures
        create_event_post(
            *accs,
            name@,
            symbol@,
            description@,
            metadata_uri@,
            start_time,
            end_time,
            ticket_price,
            total_tickets,
            program_id@,
            r,
        ),
        (r matches Ok(eff) ==> eff.event@.wf() && eff.event_counter@.wf()),
{
    if !check_pda(
        &accs.event_counter_addr,
        event_counter_seeds(&accs.admin.addr),
        program_id,
    ) {
        return Err(EventError::AddressMismatch);
    }
    let derived_event = derive_address(
        event_seeds(&accs.admin.addr, accs.event_counter.next_event_id),
        program_id,
    );
    let (event_addr, event_bump) = match derived_event {
        Some(p) => p,
        None => {
            return Err(EventError::AddressMismatch);
        },
    };
    if !crate::bytes::bytes_eq(&accs.event_addr, &event_addr) {
        return Err(EventError::AddressMismatch);
    }
    if !check_pda(&accs.vault_addr, vault_seeds(&accs.event_addr), program_id) {
        return Err(EventError::AddressMismatch);
    }
    if !accs.admin.is_signer {
        return Err(EventError::Unauthorized);
    }
    if name.len() < 3 {
        return Err(EventError::NameTooShort);
    }
    if name.len() > 100 {
        return Err(EventError::NameTooLong);
    }
    if symbol.len() > 10 {
        return Err(EventError::SymbolTooLong);
    }
    if description.len() > 500 {
        return Err(EventError::DescriptionTooLong);
    }
    if metadata_uri.len() > 200 {
        return Err(EventError::UriTooLong);
    }
    if end_time <= start_time {
        return Err(EventError::InvalidEventTime);
    }
    if total_tickets == 0 {
        return Err(EventError::InvalidTicketCount);
    }
    if ticket_price == 0 {
        return Err(EventError::InvalidTicketPrice);
    }
    let next_event_id = match accs.event_counter.next_event_id.checked_add(1) {
        Some(n) => n,
        None => {
            return Err(EventError::NumericOverflow);
        },
    };
    let counter_admin = if crate::bytes::bytes_eq(&accs.event_counter.admin, &zero_addr()) {
        copy_bytes(&accs.admin.addr)
    } else {
        copy_bytes(&accs.event_counter.admin)
    };
    let event = Event {
        id: accs.event_counter.next_event_id,
        admin: copy_bytes(&accs.admin.addr),
        vault: copy_bytes(&accs.vault_addr),
        name: name,
        symbol: symbol,
        description: description,
        metadata_uri: metadata_uri,
        start_time: start_time,
        end_time: end_time,
        ticket_price: ticket_price,
        total_tickets: total_tickets,
        tickets_sold: 0,
        tickets_returned: 0,
        bump: event_bump,
    };
    Ok(CreateEventEffects {
        event_counter: EventCounter { admin: counter_admin, next_event_id: next_event_id },
        event: event,
    })
}

} // verus!
