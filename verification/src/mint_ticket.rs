//! Selling a ticket: validates every supplied account against its
//! derivation, checks the time window, the remaining capacity and the
//! buyer's funds, then describes the atomic unit the runtime commits:
//! the payment, the new ticket, mint, metadata, observer registration
//! and ownership records, and the one minted token.

use vstd::prelude::*;

use crate::accounts::MintTicket;
use crate::bytes::copy_bytes;
use crate::effects::{ops_views, TokenOp, TokenOpView};
use crate::errors::EventError;
use crate::metadata::{metadata_rent_lamports, nft_name, spec_metadata_rent, spec_nft_name};
use crate::pda::{
    ata_seeds, ata_seeds_spec, derive_address, event_seeds, event_seeds_spec,
    extra_metas_seeds, extra_metas_seeds_spec, is_pda, is_pda_with_bump, pda_bump,
    ticket_mint_seeds, ticket_mint_seeds_spec, ticket_ownership_seeds,
    ticket_ownership_seeds_spec, ticket_seeds, ticket_seeds_spec, ticket_signer_seeds,
    ticket_signer_seeds_spec, vault_seeds, vault_seeds_spec,
};
use crate::state::{Event, EventView, Ticket, TicketOwnership, TicketOwnershipView, TicketView};
use crate::transfer_hook::{build_extra_metas_data, registration_image};
use crate::validate::{check_pda, check_pda_with_bump};

verus! {

/// The extension configuration the new ticket mint is created with.  The
/// expiry-close path later re-checks the delegated authorities recorded
/// here against the admin and this program.
#[derive(Debug)]
pub struct MintConfig {
    /// Zero: the ticket token is indivisible.
    pub decimals: u8,
    /// The ticket record, as mint authority.
    pub mint_authority: Vec<u8>,
    /// The ticket record, as freeze authority.
    pub freeze_authority: Vec<u8>,
    /// The ticket record, as metadata-pointer authority.
    pub metadata_pointer_authority: Vec<u8>,
    /// The mint itself, as the address its metadata lives at.
    pub metadata_address: Vec<u8>,
    /// The event admin, as permanent delegate for the forced burn.
    pub permanent_delegate: Vec<u8>,
    /// The event admin, as close authority.
    pub close_authority: Vec<u8>,
    /// The ticket record, as transfer-hook authority.
    pub transfer_hook_authority: Vec<u8>,
    /// This program, as the registered transfer observer.
    pub transfer_hook_program: Vec<u8>,
}

pub ghost struct MintConfigView {
    pub decimals: u8,
    pub mint_authority: Seq<u8>,
    pub freeze_authority: Seq<u8>,
    pub metadata_pointer_authority: Seq<u8>,
    pub metadata_address: Seq<u8>,
    pub permanent_delegate: Seq<u8>,
    pub close_authority: Seq<u8>,
    pub transfer_hook_authority: Seq<u8>,
    pub transfer_hook_program: Seq<u8>,
}

impl View for MintConfig {
    type V = MintConfigView;

    open spec fn view(&self) -> MintConfigView {
        MintConfigView {
            decimals: self.decimals,
            mint_authority: self.mint_authority@,
            freeze_authority: self.freeze_authority@,
            metadata_pointer_authority: self.metadata_pointer_authority@,
            metadata_address: self.metadata_address@,
            permanent_delegate: self.permanent_delegate@,
            close_authority: self.close_authority@,
            transfer_hook_authority: self.transfer_hook_authority@,
            transfer_hook_program: self.transfer_hook_program@,
        }
    }
}

/// The account images and orchestration a successful `mint_ticket` asks
/// the runtime to commit atomically.
#[derive(Debug)]
pub struct MintTicketEffects {
    /// The event with one more ticket sold.
    pub event: Event,
    /// The new ticket record, numbered by the old sales counter.
    pub ticket: Ticket,
    /// The new ownership record, seeded with the buyer as holder.
    pub ticket_ownership: TicketOwnership,
    /// The configuration the new mint is created with.
    pub mint_config: MintConfig,
    /// The byte image of the transfer-observer registration record.
    pub extra_metas_data: Vec<u8>,
    /// The ordered token-runtime calls of the mint orchestration.
    pub ops: Vec<TokenOp>,
}

/// The rent deposit of the metadata entry of ticket `id`.
pub open spec fn mint_metadata_rent(e: EventView, id: u64) -> int {
    spec_metadata_rent(
        spec_nft_name(e.name, id).len(),
        e.symbol.len(),
        e.metadata_uri.len(),
    )
}

/// All account checks of `mint_ticket` pass: every derivation matches,
/// the vault is the event's, and the buyer signs.
pub open spec fn mint_accounts_ok(accs: MintTicket, event_id: u64, program_id: Seq<u8>) -> bool {
    &&& is_pda_with_bump(
        accs.event_addr@,
        accs.event@.bump,
        event_seeds_spec(accs.event@.admin, event_id),
        program_id,
    )
    &&& is_pda(accs.event_vault.addr@, vault_seeds_spec(accs.event_addr@), program_id)
    &&& accs.event_vault.addr@ == accs.event@.vault
    &&& accs.buyer.is_signer
    &&& is_pda(
        accs.ticket_addr@,
        ticket_seeds_spec(accs.event_addr@, accs.event@.tickets_sold),
        program_id,
    )
    &&& is_pda(
        accs.ticket_mint_addr@,
        ticket_mint_seeds_spec(accs.event_addr@, accs.event@.tickets_sold),
        program_id,
    )
    &&& is_pda(
        accs.extra_account_meta_list_addr@,
        extra_metas_seeds_spec(accs.ticket_mint_addr@),
        program_id,
    )
    &&& is_pda(
        accs.ticket_ownership_addr@,
        ticket_ownership_seeds_spec(accs.ticket_mint_addr@),
        program_id,
    )
    &&& is_pda(
        accs.buyer_ticket_ata_addr@,
        ata_seeds_spec(accs.buyer.addr@, accs.token_program@, accs.ticket_mint_addr@),
        accs.associated_token_program@,
    )
}

/// The error `mint_ticket` aborts with, or `None` when it succeeds:
/// derivations and cross-references of every supplied account, the
/// buyer's signature, then the time window, the capacity guard, the
/// buyer's funds, and the checked counter and rent arithmetic.
pub open spec fn mint_ticket_error(
    accs: MintTicket,
    event_id: u64,
    now: i64,
    program_id: Seq<u8>,
) -> Option<EventError> {
    if !is_pda_with_bump(
        accs.event_addr@,
        accs.event@.bump,
        event_seeds_spec(accs.event@.admin, event_id),
        program_id,
    ) {
        Some(EventError::AddressMismatch)
    } else if !is_pda(accs.event_vault.addr@, vault_seeds_spec(accs.event_addr@), program_id) {
        Some(EventError::AddressMismatch)
    } else if accs.event_vault.addr@ != accs.event@.vault {
        Some(EventError::AddressMismatch)
    } else if !accs.buyer.is_signer {
        Some(EventError::Unauthorized)
    } else if !is_pda(
        accs.ticket_addr@,
        ticket_seeds_spec(accs.event_addr@, accs.event@.tickets_sold),
        program_id,
    ) {
        Some(EventError::AddressMismatch)
    } else if !is_pda(
        accs.ticket_mint_addr@,
        ticket_mint_seeds_spec(accs.event_addr@, accs.event@.tickets_sold),
        program_id,
    ) {
        Some(EventError::AddressMismatch)
    } else if !is_pda(
        accs.extra_account_meta_list_addr@,
        extra_metas_seeds_spec(accs.ticket_mint_addr@),
        program_id,
    ) {
        Some(EventError::AddressMismatch)
    } else if !is_pda(
        accs.ticket_ownership_addr@,
        ticket_ownership_seeds_spec(accs.ticket_mint_addr@),
        program_id,
    ) {
        Some(EventError::AddressMismatch)
    } else if !is_pda(
        accs.buyer_ticket_ata_addr@,
        ata_seeds_spec(accs.buyer.addr@, accs.token_program@, accs.ticket_mint_addr@),
        accs.associated_token_program@,
    ) {
        Some(EventError::AddressMismatch)
    } else if now >= accs.event@.end_time {
        Some(EventError::EventEnded)
    } else if accs.event@.tickets_sold >= accs.event@.total_tickets
        + accs.event@.tickets_returned {
        Some(EventError::EventSoldOut)
    } else if accs.buyer.lamports < accs.event@.ticket_price {
        Some(EventError::InsufficientFunds)
    } else if accs.event@.tickets_sold == u64::MAX
        || mint_metadata_rent(accs.event@, accs.event@.tickets_sold) > u64::MAX {
        Some(EventError::NumericOverflow)
    } else {
        None
    }
}

/// The event image after a sale: one more ticket sold.
pub open spec fn minted_event(e: EventView) -> EventView {
    EventView { tickets_sold: (e.tickets_sold + 1) as u64, ..e }
}

/// The ticket record a successful sale creates.
pub open spec fn minted_ticket(accs: MintTicket, program_id: Seq<u8>) -> TicketView {
    TicketView {
        id: accs.event@.tickets_sold,
        event: accs.event_addr@,
        mint: accs.ticket_mint_addr@,
        valid_until: accs.event@.end_time,
        used: false,
        bump: pda_bump(
            ticket_seeds_spec(accs.event_addr@, accs.event@.tickets_sold),
            program_id,
        ),
    }
}

/// The configuration a successful sale creates the mint with: the
/// ticket record holds the mint, freeze, metadata-pointer and
/// transfer-hook authorities, the admin holds the permanent delegate
/// and the close authority, and this program observes transfers.
pub open spec fn minted_mint_config(accs: MintTicket, program_id: Seq<u8>) -> MintConfigView {
    MintConfigView {
        decimals: 0,
        mint_authority: accs.ticket_addr@,
        freeze_authority: accs.ticket_addr@,
        metadata_pointer_authority: accs.ticket_addr@,
        metadata_address: accs.ticket_mint_addr@,
        permanent_delegate: accs.event@.admin,
        close_authority: accs.event@.admin,
        transfer_hook_authority: accs.ticket_addr@,
        transfer_hook_program: program_id,
    }
}

/// The ownership record a successful sale creates: the buyer holds the
/// new ticket.
pub open spec fn minted_ownership(accs: MintTicket) -> TicketOwnershipView {
    TicketOwnershipView {
        owner: accs.buyer.addr@,
        ticket: accs.ticket_addr@,
        mint: accs.ticket_mint_addr@,
    }
}

/// The mint orchestration, in order: pay the vault exactly the ticket
/// price, write the observer registration, fund the metadata rent,
/// attach the metadata and mint the one token, both signed with the
/// ticket's derived seeds.
pub open spec fn mint_ops_spec(accs: MintTicket, program_id: Seq<u8>) -> Seq<TokenOpView> {
    let id = accs.event@.tickets_sold;
    let seeds = ticket_signer_seeds_spec(
        accs.event_addr@,
        id,
        pda_bump(ticket_seeds_spec(accs.event_addr@, id), program_id),
    );
    seq![
        (TokenOpView::TransferLamports {
            from: accs.buyer.addr@,
            to: accs.event_vault.addr@,
            amount: accs.event@.ticket_price,
        }),
        (TokenOpView::WriteExtraAccountMetas { account: accs.extra_account_meta_list_addr@ }),
        (TokenOpView::TransferLamports {
            from: accs.buyer.addr@,
            to: accs.ticket_mint_addr@,
            amount: mint_metadata_rent(accs.event@, id) as u64,
        }),
        (TokenOpView::InitMetadata {
            mint: accs.ticket_mint_addr@,
            name: spec_nft_name(accs.event@.name, id),
            symbol: accs.event@.symbol,
            uri: accs.event@.metadata_uri,
            authority_seeds: seeds,
        }),
        (TokenOpView::MintTo {
            mint: accs.ticket_mint_addr@,
            to: accs.buyer_ticket_ata_addr@,
            amount: 1,
            authority_seeds: seeds,
        }),
    ]
}

/// Everything `mint_ticket` promises of its outcome.
pub open spec fn mint_ticket_post(
    accs: MintTicket,
    event_id: u64,
    now: i64,
    program_id: Seq<u8>,
    r: Result<MintTicketEffects, EventError>,
) -> bool {
    match r {
        Ok(eff) => {
            &&& mint_ticket_error(accs, event_id, now, program_id) is None
            &&& eff.event@ == minted_event(accs.event@)
            &&& eff.ticket@ == minted_ticket(accs, program_id)
            &&& eff.ticket_ownership@ == minted_ownership(accs)
            &&& eff.mint_config@ == minted_mint_config(accs, program_id)
            &&& eff.extra_metas_data@ == registration_image(
                crate::pda::spec_ticket_ownership_tag(),
                1,
                false,
                true,
            )
            &&& ops_views(eff.ops) == mint_ops_spec(accs, program_id)
        },
        Err(e) => mint_ticket_error(accs, event_id, now, program_id) == Some(e),
    }
}

/// Sell one ticket of the event to the signing buyer.
pub fn mint_ticket_handler(
    accs: &MintTicket,
    event_id: u64,
    now: i64,
    program_id: &Vec<u8>,
) -> (r: Result<MintTicketEffects, EventError>)
    requires
        accs.wf(),
        program_id@.len() == 32,
    ensures
        mint_ticket_post(*accs, event_id, now, program_id@, r),
        (r matches Ok(eff) ==> eff.event@.wf() && eff.ticket@.wf() && eff.ticket_ownership@.wf()),
{
    if !check_pda_with_bump(
        &accs.event_addr,
        accs.event.bump,
        event_seeds(&accs.event.admin, event_id),
        program_id,
    ) {
        return Err(EventError::AddressMismatch);
    }
    if !check_pda(&accs.event_vault.addr, vault_seeds(&accs.event_addr), program_id) {
        return Err(EventError::AddressMismatch);
    }
    if !crate::bytes::bytes_eq(&accs.event_vault.addr, &accs.event.vault) {
        return Err(EventError::AddressMismatch);
    }
    if !accs.buyer.is_signer {
        return Err(EventError::Unauthorized);
    }
    let derived_ticket = derive_address(
        ticket_seeds(&accs.event_addr, accs.event.tickets_sold),
        program_id,
    );
    let (ticket_derived_addr, ticket_bump) = match derived_ticket {
        Some(p) => p,
        None => {
            return Err(EventError::AddressMismatch);
        },
    };
    if !crate::bytes::bytes_eq(&accs.ticket_addr, &ticket_derived_addr) {
        return Err(EventError::AddressMismatch);
    }
    if !check_pda(
        &accs.ticket_mint_addr,
        ticket_mint_seeds(&accs.event_addr, accs.event.tickets_sold),
        program_id,
    ) {
        return Err(EventError::AddressMismatch);
    }
    if !check_pda(
        &accs.extra_account_meta_list_addr,
        extra_metas_seeds(&accs.ticket_mint_addr),
        program_id,
    ) {
        return Err(EventError::AddressMismatch);
    }
    if !check_pda(
        &accs.ticket_ownership_addr,
        ticket_ownership_seeds(&accs.ticket_mint_addr),
        program_id,
    ) {
        return Err(EventError::AddressMismatch);
    }
    if !check_pda(
        &accs.buyer_ticket_ata_addr,
        ata_seeds(&accs.buyer.addr, &accs.token_program, &accs.ticket_mint_addr),
        &accs.associated_token_program,
    ) {
        return Err(EventError::AddressMismatch);
    }
    if now >= accs.event.end_time {
        return Err(EventError::EventEnded);
    }
    let capacity_left = match accs.event.total_tickets.checked_add(accs.event.tickets_returned) {
        Some(c) => accs.event.tickets_sold < c,
        None => true,
    };
    if !capacity_left {
        return Err(EventError::EventSoldOut);
    }
    if accs.buyer.lamports < accs.event.ticket_price {
        return Err(EventError::InsufficientFunds);
    }
    let new_sold = match accs.event.tickets_sold.checked_add(1) {
        Some(n) => n,
        None => {
            return Err(EventError::NumericOverflow);
        },
    };
    let token_name = nft_name(&accs.event.name, accs.event.tickets_sold);
    let rent = match metadata_rent_lamports(
        token_name.len() as u64,
        accs.event.symbol.len() as u64,
        accs.event.metadata_uri.len() as u64,
    ) {
        Some(v) => v,
        None => {
            return Err(EventError::NumericOverflow);
        },
    };
    let mut event = accs.event.dup();
    event.tickets_sold = new_sold;
    let ticket = Ticket {
        id: accs.event.tickets_sold,
        event: copy_bytes(&accs.event_addr),
        mint: copy_bytes(&accs.ticket_mint_addr),
        valid_until: accs.event.end_time,
        used: false,
        bump: ticket_bump,
    };
    let ticket_ownership = TicketOwnership {
        owner: copy_bytes(&accs.buyer.addr),
        ticket: copy_bytes(&accs.ticket_addr),
        mint: copy_bytes(&accs.ticket_mint_addr),
    };
    let mint_config = MintConfig {
        decimals: 0,
        mint_authority: copy_bytes(&accs.ticket_addr),
        freeze_authority: copy_bytes(&accs.ticket_addr),
        metadata_pointer_authority: copy_bytes(&accs.ticket_addr),
        metadata_address: copy_bytes(&accs.ticket_mint_addr),
        permanent_delegate: copy_bytes(&accs.event.admin),
        close_authority: copy_bytes(&accs.event.admin),
        transfer_hook_authority: copy_bytes(&accs.ticket_addr),
        transfer_hook_program: copy_bytes(program_id),
    };
    let mut ops: Vec<TokenOp> = Vec::new();
    ops.push(TokenOp::TransferLamports {
        from: copy_bytes(&accs.buyer.addr),
        to: copy_bytes(&accs.event_vault.addr),
        amount: accs.event.ticket_price,
    });
    ops.push(TokenOp::WriteExtraAccountMetas {
        account: copy_bytes(&accs.extra_account_meta_list_addr),
    });
    ops.push(TokenOp::TransferLamports {
        from: copy_bytes(&accs.buyer.addr),
        to: copy_bytes(&accs.ticket_mint_addr),
        amount: rent,
    });
    ops.push(TokenOp::InitMetadata {
        mint: copy_bytes(&accs.ticket_mint_addr),
        name: copy_bytes(&token_name),
        symbol: copy_bytes(&accs.event.symbol),
        uri: copy_bytes(&accs.event.metadata_uri),
        authority_seeds: ticket_signer_seeds(&accs.event_addr, accs.event.tickets_sold, ticket_bump),
    });
    ops.push(TokenOp::MintTo {
        mint: copy_bytes(&accs.ticket_mint_addr),
        to: copy_bytes(&accs.buyer_ticket_ata_addr),
        amount: 1,
        authority_seeds: ticket_signer_seeds(&accs.event_addr, accs.event.tickets_sold, ticket_bump),
    });
    proof {
        assert(ops_views(ops) =~~= mint_ops_spec(*accs, program_id@));
    }
    Ok(MintTicketEffects {
        event: event,
        ticket: ticket,
        ticket_ownership: ticket_ownership,
        mint_config: mint_config,
        extra_metas_data: build_extra_metas_data(),
        ops: ops,
    })
}

} // verus!
