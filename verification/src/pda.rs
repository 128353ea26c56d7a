//! Derived-address registry.
//!
//! Every persistent record of the program lives at an address that is a
//! pure function of a kind-specific tag, the parent identifiers and a
//! numeric id rendered big-endian.  Any client can recompute an address
//! off-chain; the validator re-derives and compares on every instruction.

use vstd::prelude::*;

use crate::bytes::{be64, copy_bytes, spec_be64};

verus! {

/// What `Pubkey::try_find_program_address` returns for the given seeds
/// under the given program id: the derived address (32 bytes) and its
/// bump, or nothing when no off-curve address exists for any bump.
pub uninterp spec fn pda_of(seeds: Seq<Seq<u8>>, program_id: Seq<u8>) -> Option<(Seq<u8>, u8)>;

/// How an executable derivation result relates to `pda_of`.
pub open spec fn derives_to(r: Option<(Vec<u8>, u8)>, d: Option<(Seq<u8>, u8)>) -> bool {
    match (r, d) {
        (Some(p), Some(q)) => p.0@ == q.0 && p.1 == q.1 && q.0.len() == 32,
        (None, None) => true,
        _ => false,
    }
}

/// The supplied address re-derives from the given seeds.
pub open spec fn is_pda(addr: Seq<u8>, seeds: Seq<Seq<u8>>, program_id: Seq<u8>) -> bool {
    match pda_of(seeds, program_id) {
        Some(q) => addr == q.0,
        None => false,
    }
}

/// The supplied address and bump both re-derive from the given seeds.
pub open spec fn is_pda_with_bump(
    addr: Seq<u8>,
    bump: u8,
    seeds: Seq<Seq<u8>>,
    program_id: Seq<u8>,
) -> bool {
    match pda_of(seeds, program_id) {
        Some(q) => addr == q.0 && bump == q.1,
        None => false,
    }
}

/// The canonical bump of a derivable address; meaningful only when
/// `pda_of` yields an address for the seeds.
pub open spec fn pda_bump(seeds: Seq<Seq<u8>>, program_id: Seq<u8>) -> u8 {
    match pda_of(seeds, program_id) {
        Some(q) => q.1,
        None => 0,
    }
}

/// Relies on `Pubkey::try_find_program_address` (solana-address, reached
/// through anchor-lang's prelude): the derivation is a deterministic
/// function of the seeds and the program id alone, a returned address is
/// 32 bytes long, and the call returns rather than panics on every input.
#[verifier::external_body]
fn find_pda(seeds: &Vec<Vec<u8>>, program_id: &Vec<u8>) -> (r: Option<(Vec<u8>, u8)>)
    requires
        program_id@.len() == 32,
    ensures
        derives_to(r, pda_of(seeds.deep_view(), program_id@)),
{
    let mut key = [0u8; 32];
    key.copy_from_slice(program_id.as_slice());
    let pid = anchor_lang::prelude::Pubkey::new_from_array(key);
    let refs: Vec<&[u8]> = seeds.iter().map(|s| s.as_slice()).collect();
    anchor_lang::prelude::Pubkey::try_find_program_address(&refs, &pid)
        .map(|(a, b)| (a.to_bytes().to_vec(), b))
}

/// Derive the address for arbitrary seed components.
pub fn derive_address(seeds: Vec<Vec<u8>>, program_id: &Vec<u8>) -> (r: Option<(Vec<u8>, u8)>)
    requires
        program_id@.len() == 32,
    ensures
        derives_to(r, pda_of(seeds.deep_view(), program_id@)),
{
    find_pda(&seeds, program_id)
}

/// Domain-separation tag of the per-admin event counter record.
pub open spec fn spec_event_counter_tag() -> Seq<u8> {
    seq![101, 118, 101, 110, 116, 95, 99, 111, 117, 110, 116, 101, 114]
}

/// Domain-separation tag of an event record.
pub open spec fn spec_event_tag() -> Seq<u8> {
    seq![101, 118, 101, 110, 116]
}

/// Domain-separation tag of an event's vault.
pub open spec fn spec_vault_tag() -> Seq<u8> {
    seq![118, 97, 117, 108, 116]
}

/// Domain-separation tag of a ticket record.
pub open spec fn spec_ticket_tag() -> Seq<u8> {
    seq![116, 105, 99, 107, 101, 116]
}

/// Domain-separation tag of a ticket's token mint.
pub open spec fn spec_ticket_mint_tag() -> Seq<u8> {
    seq![116, 105, 99, 107, 101, 116, 95, 109, 105, 110, 116]
}

/// Domain-separation tag of a ticket-ownership record.
pub open spec fn spec_ticket_ownership_tag() -> Seq<u8> {
    seq![116, 105, 99, 107, 101, 116, 95, 111, 119, 110, 101, 114, 115, 104, 105, 112]
}

/// Domain-separation tag of the transfer-observer registration record,
/// fixed by the transfer-hook interface convention.
pub open spec fn spec_extra_metas_tag() -> Seq<u8> {
    seq![
        101, 120, 116, 114, 97, 45, 97, 99, 99, 111, 117, 110, 116, 45,
        109, 101, 116, 97, 115,
    ]
}

pub fn event_counter_tag() -> (r: Vec<u8>)
    ensures
        r@ == spec_event_counter_tag(),
{
    let mut r: Vec<u8> = Vec::new();
    r.push(101);
    r.push(118);
    r.push(101);
    r.push(110);
    r.push(116);
    r.push(95);
    r.push(99);
    r.push(111);
    r.push(117);
    r.push(110);
    r.push(116);
    r.push(101);
    r.push(114);
    assert(r@ =~= spec_event_counter_tag());
    r
}

pub fn event_tag() -> (r: Vec<u8>)
    ensures
        r@ == spec_event_tag(),
{
    let mut r: Vec<u8> = Vec::new();
    r.push(101);
    r.push(118);
    r.push(101);
    r.push(110);
    r.push(116);
    assert(r@ =~= spec_event_tag());
    r
}

pub fn vault_tag() -> (r: Vec<u8>)
    ensures
        r@ == spec_vault_tag(),
{
    let mut r: Vec<u8> = Vec::new();
    r.push(118);
    r.push(97);
    r.push(117);
    r.push(108);
    r.push(116);
    assert(r@ =~= spec_vault_tag());
    r
}

pub fn ticket_tag() -> (r: Vec<u8>)
    ensures
        r@ == spec_ticket_tag(),
{
    let mut r: Vec<u8> = Vec::new();
    r.push(116);
    r.push(105);
    r.push(99);
    r.push(107);
    r.push(101);
    r.push(116);
    assert(r@ =~= spec_ticket_tag());
    r
}

pub fn ticket_mint_tag() -> (r: Vec<u8>)
    ensures
        r@ == spec_ticket_mint_tag(),
{
    let mut r = ticket_tag();
    r.push(95);
    r.push(109);
    r.push(105);
    r.push(110);
    r.push(116);
    assert(r@ =~= spec_ticket_mint_tag());
    r
}

pub fn ticket_ownership_tag() -> (r: Vec<u8>)
    ensures
        r@ == spec_ticket_ownership_tag(),
{
    let mut r = ticket_tag();
    r.push(95);
    r.push(111);
    r.push(119);
    r.push(110);
    r.push(101);
    r.push(114);
    r.push(115);
    r.push(104);
    r.push(105);
    r.push(112);
    assert(r@ =~= spec_ticket_ownership_tag());
    r
}

pub fn extra_metas_tag() -> (r: Vec<u8>)
    ensures
        r@ == spec_extra_metas_tag(),
{
    let mut r: Vec<u8> = Vec::new();
    r.push(101);
    r.push(120);
    r.push(116);
    r.push(114);
    r.push(97);
    r.push(45);
    r.push(97);
    r.push(99);
    r.push(99);
    r.push(111);
    r.push(117);
    r.push(110);
    r.push(116);
    r.push(45);
    r.push(109);
    r.push(101);
    r.push(116);
    r.push(97);
    r.push(115);
    assert(r@ =~= spec_extra_metas_tag());
    r
}

/// Seeds of the per-admin event counter.
pub open spec fn event_counter_seeds_spec(admin: Seq<u8>) -> Seq<Seq<u8>> {
    seq![spec_event_counter_tag(), admin]
}

/// Seeds of the event numbered `event_id` under `admin`.
pub open spec fn event_seeds_spec(admin: Seq<u8>, event_id: u64) -> Seq<Seq<u8>> {
    seq![spec_event_tag(), admin, spec_be64(event_id)]
}

/// Seeds of an event's vault.
pub open spec fn vault_seeds_spec(event_addr: Seq<u8>) -> Seq<Seq<u8>> {
    seq![spec_vault_tag(), event_addr]
}

/// Seeds of the ticket numbered `ticket_id` within an event.
pub open spec fn ticket_seeds_spec(event_addr: Seq<u8>, ticket_id: u64) -> Seq<Seq<u8>> {
    seq![spec_ticket_tag(), event_addr, spec_be64(ticket_id)]
}

/// Seeds of the token mint of the ticket numbered `ticket_id`.
pub open spec fn ticket_mint_seeds_spec(event_addr: Seq<u8>, ticket_id: u64) -> Seq<Seq<u8>> {
    seq![spec_ticket_mint_tag(), event_addr, spec_be64(ticket_id)]
}

/// Seeds of the ownership record of a ticket mint.
pub open spec fn ticket_ownership_seeds_spec(mint_addr: Seq<u8>) -> Seq<Seq<u8>> {
    seq![spec_ticket_ownership_tag(), mint_addr]
}

/// Seeds of the transfer-observer registration record of a ticket mint.
pub open spec fn extra_metas_seeds_spec(mint_addr: Seq<u8>) -> Seq<Seq<u8>> {
    seq![spec_extra_metas_tag(), mint_addr]
}

pub fn event_counter_seeds(admin: &Vec<u8>) -> (r: Vec<Vec<u8>>)
    ensures
        r.deep_view() == event_counter_seeds_spec(admin@),
{
    let mut r: Vec<Vec<u8>> = Vec::new();
    r.push(event_counter_tag());
    r.push(copy_bytes(admin));
    assert(r.deep_view() =~~= event_counter_seeds_spec(admin@));
    r
}

pub fn event_seeds(admin: &Vec<u8>, event_id: u64) -> (r: Vec<Vec<u8>>)
    ensures
        r.deep_view() == event_seeds_spec(admin@, event_id),
{
    let mut r: Vec<Vec<u8>> = Vec::new();
    r.push(event_tag());
    r.push(copy_bytes(admin));
    r.push(be64(event_id));
    assert(r.deep_view() =~~= event_seeds_spec(admin@, event_id));
    r
}

pub fn vault_seeds(event_addr: &Vec<u8>) -> (r: Vec<Vec<u8>>)
    ensures
        r.deep_view() == vault_seeds_spec(event_addr@),
{
    let mut r: Vec<Vec<u8>> = Vec::new();
    r.push(vault_tag());
    r.push(copy_bytes(event_addr));
    assert(r.deep_view() =~~= vault_seeds_spec(event_addr@));
    r
}

pub fn ticket_seeds(event_addr: &Vec<u8>, ticket_id: u64) -> (r: Vec<Vec<u8>>)
    ensures
        r.deep_view() == ticket_seeds_spec(event_addr@, ticket_id),
{
    let mut r: Vec<Vec<u8>> = Vec::new();
    r.push(ticket_tag());
    r.push(copy_bytes(event_addr));
    r.push(be64(ticket_id));
    assert(r.deep_view() =~~= ticket_seeds_spec(event_addr@, ticket_id));
    r
}

pub fn ticket_mint_seeds(event_addr: &Vec<u8>, ticket_id: u64) -> (r: Vec<Vec<u8>>)
    ensures
        r.deep_view() == ticket_mint_seeds_spec(event_addr@, ticket_id),
{
    let mut r: Vec<Vec<u8>> = Vec::new();
    r.push(ticket_mint_tag());
    r.push(copy_bytes(event_addr));
    r.push(be64(ticket_id));
    assert(r.deep_view() =~~= ticket_mint_seeds_spec(event_addr@, ticket_id));
    r
}

pub fn ticket_ownership_seeds(mint_addr: &Vec<u8>) -> (r: Vec<Vec<u8>>)
    ensures
        r.deep_view() == ticket_ownership_seeds_spec(mint_addr@),
{
    let mut r: Vec<Vec<u8>> = Vec::new();
    r.push(ticket_ownership_tag());
    r.push(copy_bytes(mint_addr));
    assert(r.deep_view() =~~= ticket_ownership_seeds_spec(mint_addr@));
    r
}

pub fn extra_metas_seeds(mint_addr: &Vec<u8>) -> (r: Vec<Vec<u8>>)
    ensures
        r.deep_view() == extra_metas_seeds_spec(mint_addr@),
{
    let mut r: Vec<Vec<u8>> = Vec::new();
    r.push(extra_metas_tag());
    r.push(copy_bytes(mint_addr));
    assert(r.deep_view() =~~= extra_metas_seeds_spec(mint_addr@));
    r
}

/// Seeds of an associated token account: the holding wallet, the token
/// program the mint lives under, and the mint, derived under the
/// associated-token program.
pub open spec fn ata_seeds_spec(
    owner: Seq<u8>,
    token_program: Seq<u8>,
    mint_addr: Seq<u8>,
) -> Seq<Seq<u8>> {
    seq![owner, token_program, mint_addr]
}

pub fn ata_seeds(owner: &Vec<u8>, token_program: &Vec<u8>, mint_addr: &Vec<u8>) -> (r: Vec<
    Vec<u8>,
>)
    ensures
        r.deep_view() == ata_seeds_spec(owner@, token_program@, mint_addr@),
{
    let mut r: Vec<Vec<u8>> = Vec::new();
    r.push(copy_bytes(owner));
    r.push(copy_bytes(token_program));
    r.push(copy_bytes(mint_addr));
    assert(r.deep_view() =~~= ata_seeds_spec(owner@, token_program@, mint_addr@));
    r
}

/// The seeds a ticket record signs with: its derivation seeds followed
/// by its one-byte bump.
pub open spec fn ticket_signer_seeds_spec(
    event_addr: Seq<u8>,
    ticket_id: u64,
    bump: u8,
) -> Seq<Seq<u8>> {
    ticket_seeds_spec(event_addr, ticket_id).push(seq![bump])
}

pub fn ticket_signer_seeds(event_addr: &Vec<u8>, ticket_id: u64, bump: u8) -> (r: Vec<Vec<u8>>)
    ensures
        r.deep_view() == ticket_signer_seeds_spec(event_addr@, ticket_id, bump),
{
    let mut r = ticket_seeds(event_addr, ticket_id);
    let mut b: Vec<u8> = Vec::new();
    b.push(bump);
    assert(b@ =~= seq![bump]);
    r.push(b);
    assert(r.deep_view() =~~= ticket_signer_seeds_spec(event_addr@, ticket_id, bump));
    r
}

} // verus!
