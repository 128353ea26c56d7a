//! Token-metadata bookkeeping for a ticket mint: the token name carried
//! by a ticket and the rent deposit that must accompany the metadata.

use vstd::prelude::*;

use crate::bytes::{copy_bytes, push_dec, spec_dec};

verus! {

/// The token name of ticket `id`: the event name, a space, a hash sign
/// and the decimal ticket number.
pub open spec fn spec_nft_name(name: Seq<u8>, id: u64) -> Seq<u8> {
    name + seq![32u8, 35u8] + spec_dec(id)
}

/// Render the token name of ticket `id` of an event called `name`.
pub fn nft_name(name: &Vec<u8>, id: u64) -> (r: Vec<u8>)
    ensures
        r@ == spec_nft_name(name@, id),
{
    let mut r = copy_bytes(name);
    r.push(32);
    r.push(35);
    assert(r@ =~= name@ + seq![32u8, 35u8]);
    push_dec(id, &mut r);
    assert(r@ =~= spec_nft_name(name@, id));
    r
}

/// Byte size of the borsh-encoded metadata record: two 32-byte
/// addresses (update authority and mint), three length-prefixed byte
/// strings, and an empty list of additional entries.
pub open spec fn spec_metadata_packed_len(name_len: nat, symbol_len: nat, uri_len: nat) -> int {
    80 + name_len as int + symbol_len as int + uri_len as int
}

/// Lamports that fund the metadata entry: its packed size plus the
/// 4-byte value-length prefix, at the default deposit rate of 3480
/// lamports per byte-year, doubled for the two-year exemption threshold.
pub open spec fn spec_metadata_rent(name_len: nat, symbol_len: nat, uri_len: nat) -> int {
    (4 + spec_metadata_packed_len(name_len, symbol_len, uri_len)) * 6960
}

/// Compute the metadata rent deposit, or nothing on overflow.
pub fn metadata_rent_lamports(name_len: u64, symbol_len: u64, uri_len: u64) -> (r: Option<u64>)
    ensures
        (match r {
            Some(v) => v == spec_metadata_rent(name_len as nat, symbol_len as nat, uri_len as nat),
            None => spec_metadata_rent(name_len as nat, symbol_len as nat, uri_len as nat)
                > u64::MAX,
        }),
{
    let base: u64 = 84;
    let t1 = match base.checked_add(name_len) {
        Some(v) => v,
        None => {
            return None;
        },
    };
    let t2 = match t1.checked_add(symbol_len) {
        Some(v) => v,
        None => {
            return None;
        },
    };
    let t3 = match t2.checked_add(uri_len) {
        Some(v) => v,
        None => {
            return None;
        },
    };
    match t3.checked_mul(6960) {
        Some(v) => Some(v),
        None => None,
    }
}

} // verus!
