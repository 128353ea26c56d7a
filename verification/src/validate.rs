//! Account-authority validation: executable checks that a supplied
//! address re-derives from its seeds, with contracts phrased over the
//! derivation registry.

use vstd::prelude::*;

use crate::bytes::bytes_eq;
use crate::pda::{derive_address, is_pda, is_pda_with_bump, pda_of};
use crate::state::is_addr;

verus! {

/// Does `addr` re-derive from `seeds` under `program_id`?
pub fn check_pda(addr: &Vec<u8>, seeds: Vec<Vec<u8>>, program_id: &Vec<u8>) -> (r: bool)
    requires
        is_addr(program_id@),
    ensures
        r == is_pda(addr@, seeds.deep_view(), program_id@),
{
    match derive_address(seeds, program_id) {
        Some((a, _bump)) => bytes_eq(addr, &a),
        None => false,
    }
}

/// Does `addr` re-derive from `seeds` under `program_id`, with `bump` as
/// the canonical bump?
pub fn check_pda_with_bump(
    addr: &Vec<u8>,
    bump: u8,
    seeds: Vec<Vec<u8>>,
    program_id: &Vec<u8>,
) -> (r: bool)
    requires
        is_addr(program_id@),
    ensures
        r == is_pda_with_bump(addr@, bump, seeds.deep_view(), program_id@),
{
    match derive_address(seeds, program_id) {
        Some((a, b)) => {
            let addr_ok = bytes_eq(addr, &a);
            addr_ok && bump == b
        },
        None => false,
    }
}

/// An honestly computed address is accepted: the address the registry
/// derives for given seeds re-derives to itself on validation.
pub proof fn lemma_honest_address_accepted(seeds: Seq<Seq<u8>>, program_id: Seq<u8>)
    requires
        pda_of(seeds, program_id) is Some,
    ensures
        (match pda_of(seeds, program_id) {
            Some(q) => is_pda(q.0, seeds, program_id) && is_pda_with_bump(
                q.0,
                q.1,
                seeds,
                program_id,
            ),
            None => false,
        }),
{
}

/// A supplied address can re-derive only to the one derived address:
/// handing in any other address fails validation.
pub proof fn lemma_forged_address_rejected(
    addr: Seq<u8>,
    seeds: Seq<Seq<u8>>,
    program_id: Seq<u8>,
)
    requires
        pda_of(seeds, program_id) matches Some(q) && addr != q.0,
    ensures
        !is_pda(addr, seeds, program_id),
{
}

} // verus!
