use event_tickets::accounts::{
    AccountRef, CloseExpiredTicket, CreateEvent, MintTicket, ReturnTicket, Signer, UseTicket,
    WithdrawFunds,
};
use event_tickets::dispatch::{
    close_expired_ticket, create_event, mint_ticket, return_ticket, use_ticket, withdraw_funds,
};
use event_tickets::effects::TokenOp;
use event_tickets::errors::EventError;
use event_tickets::pda::{
    ata_seeds, derive_address, event_counter_seeds, event_seeds, extra_metas_seeds,
    ticket_mint_seeds, ticket_ownership_seeds, ticket_seeds, vault_seeds,
};
use event_tickets::state::{Event, EventCounter, Ticket, TicketOwnership};

fn pid() -> Vec<u8> {
    vec![7u8; 32]
}

fn addr(b: u8) -> Vec<u8> {
    vec![b; 32]
}

fn d(seeds: Vec<Vec<u8>>) -> (Vec<u8>, u8) {
    derive_address(seeds, &pid()).unwrap()
}

fn create_accs(admin_b: u8, next_event_id: u64) -> CreateEvent {
    let admin = addr(admin_b);
    let counter_addr = d(event_counter_seeds(&admin)).0;
    let event_addr = d(event_seeds(&admin, next_event_id)).0;
    let vault_addr = d(vault_seeds(&event_addr)).0;
    CreateEvent {
        event_counter: EventCounter { admin: vec![0; 32], next_event_id },
        event_counter_addr: counter_addr,
        event_addr,
        vault_addr,
        admin: Signer { addr: admin, lamports: 10_000_000, is_signer: true },
    }
}

fn new_event(admin_b: u8, total: u64, price: u64, start: i64, end: i64) -> (Event, Vec<u8>) {
    let accs = create_accs(admin_b, 0);
    let event_addr = accs.event_addr.clone();
    let eff = create_event(
        &accs,
        b"Concert".to_vec(),
        b"TIX".to_vec(),
        b"An evening of music".to_vec(),
        b"https://example.invalid/meta.json".to_vec(),
        start,
        end,
        price,
        total,
        &pid(),
    )
    .unwrap();
    (eff.event, event_addr)
}

fn mint_accs(event: &Event, event_addr: &Vec<u8>, buyer_b: u8, buyer_lamports: u64) -> MintTicket {
    let ticket_addr = d(ticket_seeds(event_addr, event.tickets_sold)).0;
    let mint_addr = d(ticket_mint_seeds(event_addr, event.tickets_sold)).0;
    let metas_addr = d(extra_metas_seeds(&mint_addr)).0;
    let own_addr = d(ticket_ownership_seeds(&mint_addr)).0;
    let buyer = addr(buyer_b);
    let ata = derive_address(ata_seeds(&buyer, &addr(9), &mint_addr), &addr(10))
        .unwrap()
        .0;
    MintTicket {
        event: event.dup(),
        event_addr: event_addr.clone(),
        event_vault: AccountRef { addr: event.vault.clone(), lamports: 0 },
        buyer: Signer { addr: buyer, lamports: buyer_lamports, is_signer: true },
        ticket_addr,
        ticket_mint_addr: mint_addr,
        extra_account_meta_list_addr: metas_addr,
        ticket_ownership_addr: own_addr,
        buyer_ticket_ata_addr: ata,
        token_program: addr(9),
        associated_token_program: addr(10),
    }
}

fn clone_ticket(t: &Ticket) -> Ticket {
    Ticket {
        id: t.id,
        event: t.event.clone(),
        mint: t.mint.clone(),
        valid_until: t.valid_until,
        used: t.used,
        bump: t.bump,
    }
}

fn return_accs(
    event: &Event,
    event_addr: &Vec<u8>,
    vault_lamports: u64,
    ticket: &Ticket,
    holder_b: u8,
    holder_lamports: u64,
) -> ReturnTicket {
    let ticket_addr = d(ticket_seeds(event_addr, ticket.id)).0;
    let holder = addr(holder_b);
    let ata = derive_address(ata_seeds(&holder, &addr(9), &ticket.mint), &addr(10))
        .unwrap()
        .0;
    ReturnTicket {
        event: event.dup(),
        event_addr: event_addr.clone(),
        event_vault: AccountRef { addr: event.vault.clone(), lamports: vault_lamports },
        ticket: clone_ticket(ticket),
        ticket_addr,
        ticket_mint_addr: ticket.mint.clone(),
        signer: Signer { addr: holder, lamports: holder_lamports, is_signer: true },
        signer_ticket_ata_addr: ata,
        token_program: addr(9),
        associated_token_program: addr(10),
    }
}

#[test]
fn create_event_seeds_the_record() {
    let (event, event_addr) = new_event(1, 2, 100, 1000, 2000);
    assert_eq!(event.id, 0);
    assert_eq!(event.admin, addr(1));
    assert_eq!(event.vault, d(vault_seeds(&event_addr)).0);
    assert_eq!(event.tickets_sold, 0);
    assert_eq!(event.tickets_returned, 0);
    assert_eq!(event.total_tickets, 2);
    assert_eq!(event.ticket_price, 100);
    assert_eq!(event.bump, d(event_seeds(&addr(1), 0)).1);
}

#[test]
fn create_event_advances_the_counter() {
    let accs = create_accs(1, 0);
    let eff = create_event(
        &accs,
        b"Concert".to_vec(),
        b"TIX".to_vec(),
        Vec::new(),
        Vec::new(),
        1000,
        2000,
        100,
        2,
        &pid(),
    )
    .unwrap();
    assert_eq!(eff.event_counter.next_event_id, 1);
    assert_eq!(eff.event_counter.admin, addr(1));
}

#[test]
fn event_ids_are_sequential_and_never_reused() {
    let accs = create_accs(1, 0);
    let eff = create_event(
        &accs,
        b"First".to_vec(),
        b"T".to_vec(),
        Vec::new(),
        Vec::new(),
        1000,
        2000,
        100,
        2,
        &pid(),
    )
    .unwrap();
    assert_eq!(eff.event.id, 0);
    let mut accs2 = create_accs(1, 1);
    accs2.event_counter = eff.event_counter;
    let eff2 = create_event(
        &accs2,
        b"Second".to_vec(),
        b"T".to_vec(),
        Vec::new(),
        Vec::new(),
        1000,
        2000,
        100,
        2,
        &pid(),
    )
    .unwrap();
    assert_eq!(eff2.event.id, 1);
    assert_eq!(eff2.event_counter.next_event_id, 2);
    assert_ne!(accs.event_addr, accs2.event_addr);
}

#[test]
fn create_event_argument_errors() {
    let run = |name: &[u8], symbol: &[u8], desc_len: usize, uri_len: usize, start: i64, end: i64, price: u64, total: u64| {
        let accs = create_accs(1, 0);
        create_event(
            &accs,
            name.to_vec(),
            symbol.to_vec(),
            vec![b'd'; desc_len],
            vec![b'u'; uri_len],
            start,
            end,
            price,
            total,
            &pid(),
        )
        .unwrap_err()
    };
    assert_eq!(run(b"ab", b"T", 0, 0, 1, 2, 1, 1), EventError::NameTooShort);
    assert_eq!(run(&[b'n'; 101], b"T", 0, 0, 1, 2, 1, 1), EventError::NameTooLong);
    assert_eq!(run(b"abc", &[b's'; 11], 0, 0, 1, 2, 1, 1), EventError::SymbolTooLong);
    assert_eq!(run(b"abc", b"T", 501, 0, 1, 2, 1, 1), EventError::DescriptionTooLong);
    assert_eq!(run(b"abc", b"T", 500, 201, 1, 2, 1, 1), EventError::UriTooLong);
    assert_eq!(run(b"abc", b"T", 0, 0, 2, 2, 1, 1), EventError::InvalidEventTime);
    assert_eq!(run(b"abc", b"T", 0, 0, 1, 2, 1, 0), EventError::InvalidTicketCount);
    assert_eq!(run(b"abc", b"T", 0, 0, 1, 2, 0, 1), EventError::InvalidTicketPrice);
}

#[test]
fn create_event_requires_signature() {
    let mut accs = create_accs(1, 0);
    accs.admin.is_signer = false;
    let r = create_event(
        &accs,
        b"abc".to_vec(),
        b"T".to_vec(),
        Vec::new(),
        Vec::new(),
        1,
        2,
        1,
        1,
        &pid(),
    );
    assert_eq!(r.unwrap_err(), EventError::Unauthorized);
}

#[test]
fn create_event_counter_overflow() {
    let admin = addr(1);
    let counter_addr = d(event_counter_seeds(&admin)).0;
    let event_addr = d(event_seeds(&admin, u64::MAX)).0;
    let vault_addr = d(vault_seeds(&event_addr)).0;
    let accs = CreateEvent {
        event_counter: EventCounter { admin: admin.clone(), next_event_id: u64::MAX },
        event_counter_addr: counter_addr,
        event_addr,
        vault_addr,
        admin: Signer { addr: admin, lamports: 0, is_signer: true },
    };
    let r = create_event(
        &accs,
        b"abc".to_vec(),
        b"T".to_vec(),
        Vec::new(),
        Vec::new(),
        1,
        2,
        1,
        1,
        &pid(),
    );
    assert_eq!(r.unwrap_err(), EventError::NumericOverflow);
}

#[test]
fn mint_rejects_forged_addresses() {
    let (event, event_addr) = new_event(1, 2, 100, 1000, 2000);
    let mut accs = mint_accs(&event, &event_addr, 2, 1000);
    accs.ticket_addr[0] = accs.ticket_addr[0].wrapping_add(1);
    assert_eq!(
        mint_ticket(&accs, 0, 1500, &pid()).unwrap_err(),
        EventError::AddressMismatch
    );
}

#[test]
fn mint_requires_buyer_signature() {
    let (event, event_addr) = new_event(1, 2, 100, 1000, 2000);
    let mut accs = mint_accs(&event, &event_addr, 2, 1000);
    accs.buyer.is_signer = false;
    assert_eq!(
        mint_ticket(&accs, 0, 1500, &pid()).unwrap_err(),
        EventError::Unauthorized
    );
}

#[test]
fn mint_after_end_fails() {
    let (event, event_addr) = new_event(1, 2, 100, 1000, 2000);
    let accs = mint_accs(&event, &event_addr, 2, 1000);
    assert_eq!(
        mint_ticket(&accs, 0, 2000, &pid()).unwrap_err(),
        EventError::EventEnded
    );
    assert_eq!(
        mint_ticket(&accs, 0, 2500, &pid()).unwrap_err(),
        EventError::EventEnded
    );
}

#[test]
fn mint_requires_funds() {
    let (event, event_addr) = new_event(1, 2, 100, 1000, 2000);
    let accs = mint_accs(&event, &event_addr, 2, 99);
    assert_eq!(
        mint_ticket(&accs, 0, 1500, &pid()).unwrap_err(),
        EventError::InsufficientFunds
    );
}

#[test]
fn full_sale_cycle() {
    // Two tickets offered at 100 lamports each: two buyers fill the
    // house, a third is turned away, a return frees a slot, and the
    // third buyer then succeeds.
    let (event, event_addr) = new_event(1, 2, 100, 1000, 2000);
    let now = 1500;
    let mut vault_lamports: u64 = 0;

    let eff_a = mint_ticket(&mint_accs(&event, &event_addr, 2, 1000), 0, now, &pid()).unwrap();
    assert_eq!(eff_a.event.tickets_sold, 1);
    match &eff_a.ops[0] {
        TokenOp::TransferLamports { to, amount, .. } => {
            assert_eq!(to, &event.vault);
            assert_eq!(*amount, 100);
            vault_lamports += amount;
        },
        _ => panic!("expected the payment transfer first"),
    }
    assert_eq!(vault_lamports, 100);
    let ticket_a = eff_a.ticket;
    assert_eq!(ticket_a.id, 0);
    assert_eq!(ticket_a.valid_until, 2000);
    assert!(!ticket_a.used);
    assert_eq!(eff_a.mint_config.decimals, 0);
    assert_eq!(eff_a.mint_config.mint_authority, d(ticket_seeds(&event_addr, 0)).0);
    assert_eq!(eff_a.mint_config.permanent_delegate, addr(1));
    assert_eq!(eff_a.mint_config.close_authority, addr(1));
    assert_eq!(eff_a.mint_config.transfer_hook_program, pid());
    assert_eq!(eff_a.extra_metas_data, event_tickets::transfer_hook::build_extra_metas_data());

    let event = eff_a.event;
    let eff_b = mint_ticket(&mint_accs(&event, &event_addr, 3, 1000), 0, now, &pid()).unwrap();
    assert_eq!(eff_b.event.tickets_sold, 2);
    vault_lamports += 100;

    let event = eff_b.event;
    assert_eq!(
        mint_ticket(&mint_accs(&event, &event_addr, 4, 1000), 0, now, &pid()).unwrap_err(),
        EventError::EventSoldOut
    );

    let r = return_ticket(
        &return_accs(&event, &event_addr, vault_lamports, &ticket_a, 2, 900),
        0,
        ticket_a.id,
        now,
        &pid(),
    )
    .unwrap();
    assert_eq!(r.refund, 100);
    assert_eq!(r.vault_lamports, 100);
    assert_eq!(r.signer_lamports, 1000);
    assert_eq!(r.event.tickets_sold, 2);
    assert_eq!(r.event.tickets_returned, 1);
    assert_eq!(r.ops.len(), 3);
    match &r.ops[0] {
        TokenOp::Burn { amount, .. } => assert_eq!(*amount, 1),
        _ => panic!("expected the burn first"),
    }
    vault_lamports = r.vault_lamports;

    let event = r.event;
    let eff_c = mint_ticket(&mint_accs(&event, &event_addr, 4, 1000), 0, now, &pid()).unwrap();
    assert_eq!(eff_c.event.tickets_sold, 3);
    assert!(eff_c.event.tickets_sold <= eff_c.event.total_tickets + eff_c.event.tickets_returned);
    assert_eq!(vault_lamports, 100);
}

#[test]
fn use_ticket_flips_exactly_once() {
    let (event, event_addr) = new_event(1, 2, 100, 1000, 2000);
    let eff = mint_ticket(&mint_accs(&event, &event_addr, 2, 1000), 0, 1500, &pid()).unwrap();
    let mut ticket = eff.ticket;
    let accs = UseTicket {
        event: eff.event.dup(),
        event_addr: event_addr.clone(),
        ticket_addr: d(ticket_seeds(&event_addr, ticket.id)).0,
        admin: Signer { addr: addr(1), lamports: 0, is_signer: true },
    };
    assert_eq!(use_ticket(&accs, &mut ticket, 0, 0, 1600, &pid()), Ok(()));
    assert!(ticket.used);
    assert_eq!(
        use_ticket(&accs, &mut ticket, 0, 0, 1700, &pid()).unwrap_err(),
        EventError::TicketAlreadyUsed
    );
    assert!(ticket.used);
}

#[test]
fn use_ticket_expires_and_checks_authority() {
    let (event, event_addr) = new_event(1, 2, 100, 1000, 2000);
    let eff = mint_ticket(&mint_accs(&event, &event_addr, 2, 1000), 0, 1500, &pid()).unwrap();
    let mut ticket = eff.ticket;
    let accs = UseTicket {
        event: eff.event.dup(),
        event_addr: event_addr.clone(),
        ticket_addr: d(ticket_seeds(&event_addr, ticket.id)).0,
        admin: Signer { addr: addr(1), lamports: 0, is_signer: true },
    };
    assert_eq!(
        use_ticket(&accs, &mut ticket, 0, 0, 2001, &pid()).unwrap_err(),
        EventError::TicketExpired
    );
    assert!(!ticket.used);
    let mut unsigned = UseTicket {
        event: eff.event.dup(),
        event_addr: event_addr.clone(),
        ticket_addr: d(ticket_seeds(&event_addr, ticket.id)).0,
        admin: Signer { addr: addr(1), lamports: 0, is_signer: false },
    };
    assert_eq!(
        use_ticket(&unsigned, &mut ticket, 0, 0, 1600, &pid()).unwrap_err(),
        EventError::Unauthorized
    );
    // An event record whose admin differs from the signing key that the
    // event address was derived from: the identity check catches it.
    unsigned.admin.is_signer = true;
    let mut wrong_admin = unsigned;
    wrong_admin.event.admin = addr(5);
    assert_eq!(
        use_ticket(&wrong_admin, &mut ticket, 0, 0, 1600, &pid()).unwrap_err(),
        EventError::AuthorityMismatch
    );
}

#[test]
fn return_rejects_used_and_expired_tickets() {
    let (event, event_addr) = new_event(1, 2, 100, 1000, 2000);
    let eff = mint_ticket(&mint_accs(&event, &event_addr, 2, 1000), 0, 1500, &pid()).unwrap();
    let event = eff.event;
    let mut used_ticket = clone_ticket(&eff.ticket);
    used_ticket.used = true;
    assert_eq!(
        return_ticket(
            &return_accs(&event, &event_addr, 100, &used_ticket, 2, 900),
            0,
            0,
            1600,
            &pid()
        )
        .unwrap_err(),
        EventError::TicketAlreadyUsed
    );
    assert_eq!(
        return_ticket(
            &return_accs(&event, &event_addr, 100, &eff.ticket, 2, 900),
            0,
            0,
            2001,
            &pid()
        )
        .unwrap_err(),
        EventError::TicketExpired
    );
}

#[test]
fn close_expired_ticket_only_after_end() {
    let (event, event_addr) = new_event(1, 2, 100, 1000, 2000);
    let eff = mint_ticket(&mint_accs(&event, &event_addr, 2, 1000), 0, 1500, &pid()).unwrap();
    let event = eff.event;
    let ticket = eff.ticket;
    let ownership = eff.ticket_ownership;
    let make = |now_admin: u8| CloseExpiredTicket {
        event: event.dup(),
        event_addr: event_addr.clone(),
        ticket: clone_ticket(&ticket),
        ticket_addr: d(ticket_seeds(&event_addr, ticket.id)).0,
        ticket_mint_addr: ticket.mint.clone(),
        mint_permanent_delegate: addr(now_admin),
        mint_close_authority: addr(now_admin),
        mint_transfer_hook_program: pid(),
        ticket_ownership: TicketOwnership {
            owner: ownership.owner.clone(),
            ticket: ownership.ticket.clone(),
            mint: ownership.mint.clone(),
        },
        ticket_ownership_addr: d(ticket_ownership_seeds(&ticket.mint)).0,
        ticket_ata_addr: derive_address(
            ata_seeds(&ownership.owner, &addr(9), &ticket.mint),
            &addr(10),
        )
        .unwrap()
        .0,
        admin: Signer { addr: addr(1), lamports: 0, is_signer: true },
        token_program: addr(9),
        associated_token_program: addr(10),
    };
    assert_eq!(
        close_expired_ticket(&make(1), 0, 0, 1500, &pid()).unwrap_err(),
        EventError::EventNotEnded
    );
    let eff = close_expired_ticket(&make(1), 0, 0, 2001, &pid()).unwrap();
    assert_eq!(eff.ops.len(), 4);
    match &eff.ops[0] {
        TokenOp::Burn { authority, amount, .. } => {
            assert_eq!(authority, &addr(1));
            assert_eq!(*amount, 1);
        },
        _ => panic!("expected the delegated burn first"),
    }
    assert_eq!(
        close_expired_ticket(&make(6), 0, 0, 2001, &pid()).unwrap_err(),
        EventError::AuthorityMismatch
    );
}

#[test]
fn withdraw_gated_by_expiry_and_sweeps_vault() {
    let (event, event_addr) = new_event(1, 1, 100, 1000, 2000);
    let make = |vault_lamports: u64, dest: Option<Vec<u8>>| WithdrawFunds {
        event: event.dup(),
        event_addr: event_addr.clone(),
        event_vault: AccountRef { addr: event.vault.clone(), lamports: vault_lamports },
        admin: Signer { addr: addr(1), lamports: 0, is_signer: true },
        destination_vault: dest.map(|a| AccountRef { addr: a, lamports: 0 }),
    };
    assert_eq!(
        withdraw_funds(&make(100, None), 0, 1500, &pid()).unwrap_err(),
        EventError::EventNotEnded
    );
    assert_eq!(
        withdraw_funds(&make(100, None), 0, 2000, &pid()).unwrap_err(),
        EventError::EventNotEnded
    );
    let eff = withdraw_funds(&make(100, Some(addr(8))), 0, 2001, &pid()).unwrap();
    assert_eq!(eff.swept, 100);
    assert_eq!(eff.ops.len(), 3);
    match &eff.ops[0] {
        TokenOp::TransferLamports { from, to, amount } => {
            assert_eq!(from, &event.vault);
            assert_eq!(to, &addr(8));
            assert_eq!(*amount, 100);
        },
        _ => panic!("expected the sweep first"),
    }
    match (&eff.ops[1], &eff.ops[2]) {
        (
            TokenOp::ClosePda { account: a1, destination: d1 },
            TokenOp::ClosePda { account: a2, destination: d2 },
        ) => {
            assert_eq!(a1, &event_addr);
            assert_eq!(a2, &event.vault);
            assert_eq!(d1, &addr(1));
            assert_eq!(d2, &addr(1));
        },
        _ => panic!("expected the event and vault to close"),
    }
    // Without a destination the whole balance leaves with the closes.
    let eff = withdraw_funds(&make(100, None), 0, 2001, &pid()).unwrap();
    assert_eq!(eff.ops.len(), 2);
}
