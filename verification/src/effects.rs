//! The orchestration vocabulary: the token-runtime calls an instruction
//! asks the runtime to perform, in order, as one atomic unit.  A call
//! made under a derived authority carries the exact signer seeds that
//! re-derive that authority.

use vstd::prelude::*;

verus! {

/// One call of the token-lifecycle orchestration.
#[derive(Debug)]
pub enum TokenOp {
    /// Move `amount` lamports from `from` to `to`.
    TransferLamports { from: Vec<u8>, to: Vec<u8>, amount: u64 },
    /// Write the transfer-observer registration record at `account`.
    WriteExtraAccountMetas { account: Vec<u8> },
    /// Attach token metadata to `mint`, signed by the authority the
    /// seeds re-derive.
    InitMetadata {
        mint: Vec<u8>,
        name: Vec<u8>,
        symbol: Vec<u8>,
        uri: Vec<u8>,
        authority_seeds: Vec<Vec<u8>>,
    },
    /// Mint `amount` units of `mint` to the token account `to`, signed by
    /// the authority the seeds re-derive.
    MintTo { mint: Vec<u8>, to: Vec<u8>, amount: u64, authority_seeds: Vec<Vec<u8>> },
    /// Burn `amount` units of `mint` from the token account `from`,
    /// signed by `authority`.
    Burn { mint: Vec<u8>, from: Vec<u8>, authority: Vec<u8>, amount: u64 },
    /// Close the token account `account`, sending its rent to
    /// `destination`, signed by `authority`.
    CloseTokenAccount { account: Vec<u8>, destination: Vec<u8>, authority: Vec<u8> },
    /// Close the mint `account` once its supply is zero, sending its rent
    /// to `destination`, signed by `authority`.
    CloseMint { account: Vec<u8>, destination: Vec<u8>, authority: Vec<u8> },
    /// Deallocate the program-owned record at `account`, sending its rent
    /// to `destination`.
    ClosePda { account: Vec<u8>, destination: Vec<u8> },
}

pub ghost enum TokenOpView {
    TransferLamports { from: Seq<u8>, to: Seq<u8>, amount: u64 },
    WriteExtraAccountMetas { account: Seq<u8> },
    InitMetadata {
        mint: Seq<u8>,
        name: Seq<u8>,
        symbol: Seq<u8>,
        uri: Seq<u8>,
        authority_seeds: Seq<Seq<u8>>,
    },
    MintTo { mint: Seq<u8>, to: Seq<u8>, amount: u64, authority_seeds: Seq<Seq<u8>> },
    Burn { mint: Seq<u8>, from: Seq<u8>, authority: Seq<u8>, amount: u64 },
    CloseTokenAccount { account: Seq<u8>, destination: Seq<u8>, authority: Seq<u8> },
    CloseMint { account: Seq<u8>, destination: Seq<u8>, authority: Seq<u8> },
    ClosePda { account: Seq<u8>, destination: Seq<u8> },
}

impl View for TokenOp {
    type V = TokenOpView;

    open spec fn view(&self) -> TokenOpView {
        match *self {
            TokenOp::TransferLamports { ref from, ref to, amount } => (TokenOpView::TransferLamports {
                from: from@,
                to: to@,
                amount: amount,
            }),
            TokenOp::WriteExtraAccountMetas { ref account } => (TokenOpView::WriteExtraAccountMetas {
                account: account@,
            }),
            TokenOp::InitMetadata { ref mint, ref name, ref symbol, ref uri, ref authority_seeds } => (TokenOpView::InitMetadata {
                mint: mint@,
                name: name@,
                symbol: symbol@,
                uri: uri@,
                authority_seeds: authority_seeds.deep_view(),
            }),
            TokenOp::MintTo { ref mint, ref to, amount, ref authority_seeds } => (TokenOpView::MintTo {
                mint: mint@,
                to: to@,
                amount: amount,
                authority_seeds: authority_seeds.deep_view(),
            }),
            TokenOp::Burn { ref mint, ref from, ref authority, amount } => (TokenOpView::Burn {
                mint: mint@,
                from: from@,
                authority: authority@,
                amount: amount,
            }),
            TokenOp::CloseTokenAccount { ref account, ref destination, ref authority } => (TokenOpView::CloseTokenAccount {
                account: account@,
                destination: destination@,
                authority: authority@,
            }),
            TokenOp::CloseMint { ref account, ref destination, ref authority } => (TokenOpView::CloseMint {
                account: account@,
                destination: destination@,
                authority: authority@,
            }),
            TokenOp::ClosePda { ref account, ref destination } => (TokenOpView::ClosePda {
                account: account@,
                destination: destination@,
            }),
        }
    }
}

/// The views of a sequence of orchestration calls.
pub open spec fn ops_views(ops: Vec<TokenOp>) -> Seq<TokenOpView> {
    ops@.map_values(|op: TokenOp| op@)
}

} // verus!
