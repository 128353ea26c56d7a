use event_tickets::bytes::{be64, bytes_eq, push_dec, zeroed};
use event_tickets::metadata::{metadata_rent_lamports, nft_name};
use event_tickets::pda::{
    ata_seeds, derive_address, event_counter_seeds, event_seeds, extra_metas_seeds,
    ticket_mint_seeds, ticket_ownership_seeds, ticket_seeds, ticket_signer_seeds, vault_seeds,
};
use event_tickets::validate::{check_pda, check_pda_with_bump};

fn pid() -> Vec<u8> {
    vec![7u8; 32]
}

fn addr(b: u8) -> Vec<u8> {
    vec![b; 32]
}

#[test]
fn be64_renders_big_endian() {
    assert_eq!(be64(0x0102030405060708), vec![1, 2, 3, 4, 5, 6, 7, 8]);
    assert_eq!(be64(0), vec![0; 8]);
    assert_eq!(be64(u64::MAX), vec![0xff; 8]);
    assert_eq!(be64(1), vec![0, 0, 0, 0, 0, 0, 0, 1]);
}

#[test]
fn be64_orders_lexicographically() {
    let mut last = be64(0);
    for id in [1u64, 9, 10, 255, 256, 65535, 1 << 40, u64::MAX] {
        let next = be64(id);
        assert!(last < next);
        last = next;
    }
}

#[test]
fn decimal_rendering() {
    let mut out = Vec::new();
    push_dec(0, &mut out);
    assert_eq!(out, b"0".to_vec());
    let mut out = Vec::new();
    push_dec(12345, &mut out);
    assert_eq!(out, b"12345".to_vec());
    let mut out = Vec::new();
    push_dec(u64::MAX, &mut out);
    assert_eq!(out, b"18446744073709551615".to_vec());
}

#[test]
fn nft_name_formats_event_name_and_id() {
    assert_eq!(nft_name(&b"Concert".to_vec(), 0), b"Concert #0".to_vec());
    assert_eq!(nft_name(&b"Gala".to_vec(), 42), b"Gala #42".to_vec());
}

#[test]
fn metadata_rent_formula() {
    // 84 + 10 + 2 + 3 bytes at 6960 lamports per byte.
    assert_eq!(metadata_rent_lamports(10, 2, 3), Some(99 * 6960));
    assert_eq!(metadata_rent_lamports(0, 0, 0), Some(84 * 6960));
    assert_eq!(metadata_rent_lamports(u64::MAX, 0, 0), None);
}

#[test]
fn bytes_eq_compares_contents() {
    assert!(bytes_eq(&vec![1, 2, 3], &vec![1, 2, 3]));
    assert!(!bytes_eq(&vec![1, 2, 3], &vec![1, 2, 4]));
    assert!(!bytes_eq(&vec![1, 2, 3], &vec![1, 2]));
    assert!(bytes_eq(&Vec::new(), &Vec::new()));
}

#[test]
fn zeroed_builds_zero_buffer() {
    let z = zeroed(51);
    assert_eq!(z.len(), 51);
    assert!(z.iter().all(|&b| b == 0));
}

#[test]
fn derivation_is_deterministic() {
    let admin = addr(1);
    let a = derive_address(event_seeds(&admin, 3), &pid()).unwrap();
    let b = derive_address(event_seeds(&admin, 3), &pid()).unwrap();
    assert_eq!(a, b);
    assert_eq!(a.0.len(), 32);
}

#[test]
fn derivation_separates_kinds_and_ids() {
    let admin = addr(1);
    let p = pid();
    let ev0 = derive_address(event_seeds(&admin, 0), &p).unwrap().0;
    let ev1 = derive_address(event_seeds(&admin, 1), &p).unwrap().0;
    let counter = derive_address(event_counter_seeds(&admin), &p).unwrap().0;
    let vault = derive_address(vault_seeds(&ev0), &p).unwrap().0;
    let ticket = derive_address(ticket_seeds(&ev0, 0), &p).unwrap().0;
    let mint = derive_address(ticket_mint_seeds(&ev0, 0), &p).unwrap().0;
    let own = derive_address(ticket_ownership_seeds(&mint), &p).unwrap().0;
    let metas = derive_address(extra_metas_seeds(&mint), &p).unwrap().0;
    let all = [ev0, ev1, counter, vault, ticket, mint, own, metas];
    for i in 0..all.len() {
        for j in 0..all.len() {
            if i != j {
                assert_ne!(all[i], all[j]);
            }
        }
    }
}

#[test]
fn derivation_matches_the_runtime_derivation() {
    // The registry must agree with the address derivation every client
    // of the runtime computes.
    let admin = addr(1);
    let p = pid();
    let (got, got_bump) = derive_address(event_seeds(&admin, 5), &p).unwrap();
    let program = anchor_lang::prelude::Pubkey::new_from_array([7u8; 32]);
    let (want, want_bump) = anchor_lang::prelude::Pubkey::find_program_address(
        &[b"event", admin.as_slice(), &5u64.to_be_bytes()],
        &program,
    );
    assert_eq!(got, want.to_bytes().to_vec());
    assert_eq!(got_bump, want_bump);
}

#[test]
fn ata_derivation_matches_the_runtime_derivation() {
    let owner = addr(2);
    let token_program = addr(9);
    let mint = addr(4);
    let ata_program = addr(10);
    let got = derive_address(ata_seeds(&owner, &token_program, &mint), &ata_program)
        .unwrap()
        .0;
    let want = anchor_lang::prelude::Pubkey::find_program_address(
        &[owner.as_slice(), token_program.as_slice(), mint.as_slice()],
        &anchor_lang::prelude::Pubkey::new_from_array([10u8; 32]),
    )
    .0;
    assert_eq!(got, want.to_bytes().to_vec());
}

#[test]
fn honest_address_accepted_and_forgery_rejected() {
    let admin = addr(1);
    let p = pid();
    let (derived, bump) = derive_address(event_seeds(&admin, 0), &p).unwrap();
    assert!(check_pda(&derived, event_seeds(&admin, 0), &p));
    assert!(check_pda_with_bump(&derived, bump, event_seeds(&admin, 0), &p));
    let mut forged = derived.clone();
    forged[0] = forged[0].wrapping_add(1);
    assert!(!check_pda(&forged, event_seeds(&admin, 0), &p));
    assert!(!check_pda_with_bump(&derived, bump.wrapping_add(1), event_seeds(&admin, 0), &p));
}

#[test]
fn signer_seeds_append_bump() {
    let ev = addr(3);
    let seeds = ticket_signer_seeds(&ev, 2, 254);
    assert_eq!(seeds.len(), 4);
    assert_eq!(seeds[0], b"ticket".to_vec());
    assert_eq!(seeds[1], ev);
    assert_eq!(seeds[2], 2u64.to_be_bytes().to_vec());
    assert_eq!(seeds[3], vec![254]);
}
