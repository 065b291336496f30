use crate::ids::Pubkey;
use vstd::prelude::*;

verus! {

/// Configuration and supply accounting for one sale.
///
/// Created once by its owner; thereafter every field is immutable
/// except `sold`, which successful purchases only ever increase.
#[derive(Clone, Copy, Debug)]
pub struct SaleConfig {
    /// Administrator of the sale.
    pub owner: Pubkey,
    /// The asset being sold.
    pub token_mint: Pubkey,
    /// Destination of buyers' payments.
    pub treasury: Pubkey,
    /// Unit price, in lamports per token.
    pub price_lamports_per_token: u64,
    /// First timestamp at which purchases are accepted.
    pub start_ts: i64,
    /// Last timestamp at which purchases are accepted.
    pub end_ts: i64,
    /// Supply cap for the whole sale.
    pub total_allocated: u64,
    /// Tokens sold so far; never exceeds `total_allocated`.
    pub sold: u64,
}

impl SaleConfig {
    /// Record invariant, established at creation and preserved by
    /// every purchase: a non-empty time window, a positive supply cap,
    /// and accounting within that cap.
    pub open spec fn wf(self) -> bool {
        &&& self.start_ts < self.end_ts
        &&& self.total_allocated > 0
        &&& self.sold <= self.total_allocated
    }
}

/// A beneficiary's time-released grant.
///
/// Created once per beneficiary; `released` grows only through claims,
/// and `revoked`, once set, freezes `released` forever.
#[derive(Clone, Copy, Debug)]
pub struct Vesting {
    /// Who may claim the vested tokens.
    pub beneficiary: Pubkey,
    /// Total tokens granted.
    pub total_amount: u64,
    /// Tokens already released to the beneficiary.
    pub released: u64,
    /// Timestamp at which vesting begins.
    pub start_ts: i64,
    /// Seconds after `start_ts` during which nothing is releasable.
    pub cliff_seconds: u64,
    /// Seconds after `start_ts` at which the full grant is releasable.
    pub duration_seconds: u64,
    /// Whether the owner may revoke the grant.
    pub revocable: bool,
    /// Whether the grant has been revoked.
    pub revoked: bool,
}

impl Vesting {
    /// Record invariant, established at creation and preserved by
    /// claims and revocations.
    pub open spec fn wf(self) -> bool {
        &&& self.total_amount > 0
        &&& self.duration_seconds > 0
        &&& self.cliff_seconds <= self.duration_seconds
        &&& self.released <= self.total_amount
    }
}

/// The persistent proof that a buyer's allocation was granted, keyed
/// uniquely by (sale, buyer). Its existence with a positive allocation
/// is the sole replay guard: a second voucher for the same pair, even
/// with a fresh nonce, finds the record and is rejected.
#[derive(Clone, Copy, Debug)]
pub struct BuyerEscrow {
    /// The sale this escrow belongs to.
    pub sale: Pubkey,
    /// The buyer the allocation was granted to.
    pub buyer: Pubkey,
    /// Tokens allocated to the buyer; set exactly once, positive.
    pub allocation: u64,
    /// Tokens the buyer has withdrawn; withdrawal is outside this core.
    pub claimed: u64,
}

/// A transient, issuer-signed capability authorizing one buyer to
/// purchase up to `max_allocation` tokens of one sale. It authorizes a
/// purchase but does not record it; the escrow does.
#[derive(Clone, Copy, Debug)]
pub struct VoucherData {
    /// The only wallet that may redeem this voucher.
    pub buyer: Pubkey,
    /// The only sale this voucher applies to.
    pub sale: Pubkey,
    /// Upper bound on the allocation this voucher authorizes.
    pub max_allocation: u64,
    /// Issuer-chosen value making each signed message unique.
    pub nonce: u64,
    /// Last timestamp at which the voucher may be redeemed.
    pub expiry_ts: i64,
}

} // verus!
