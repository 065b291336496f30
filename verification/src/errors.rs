use vstd::prelude::*;

verus! {

/// Every way a settlement transition can be rejected.
///
/// All errors are synchronous and abort the whole transition: a caller
/// that receives one may resubmit with corrected input, and no partial
/// mutation survives, because every transition in this crate is a pure
/// function whose outcome the host applies only on success.
#[derive(Clone, Copy, Debug, PartialEq, Eq, Structural)]
pub enum PresaleError {
    /// A sale was opened with `start_ts >= end_ts`.
    InvalidTimeRange,
    /// A zero allocation where a positive one is required.
    InvalidAllocation,
    /// A purchase arrived before the sale window opened.
    SaleNotStarted,
    /// A purchase arrived after the sale window closed.
    SaleEnded,
    /// The voucher names another buyer or sale, or its signature fails.
    InvalidVoucher,
    /// The voucher's expiry timestamp lies before the current time.
    VoucherExpired,
    /// The requested allocation exceeds the voucher's maximum.
    ExceedsAllocation,
    /// The sale's remaining supply cannot cover the request.
    InsufficientSupply,
    /// An escrow with a positive allocation already exists for this
    /// (sale, buyer) pair: the voucher, or an equivalent one, was spent.
    VoucherAlreadyUsed,
    /// A checked addition or multiplication would exceed its width.
    Overflow,
    /// A checked subtraction would fall below zero.
    Underflow,
    /// A division by zero was requested. Schedule-creation invariants
    /// keep the vesting divisor positive, so no transition in this
    /// crate produces it; it remains part of the error vocabulary.
    DivisionByZero,
    /// A vesting schedule was created with zero duration.
    InvalidDuration,
    /// A vesting schedule was created with a cliff past its duration.
    InvalidCliff,
    /// A claim was attempted on a revoked schedule.
    VestingRevoked,
    /// A claim found no newly vested tokens to release.
    NothingToClaim,
    /// A revocation was attempted on a non-revocable schedule.
    NotRevocable,
    /// A revocation was attempted on an already-revoked schedule.
    AlreadyRevoked,
    /// The caller is neither the owner nor the beneficiary the
    /// operation demands.
    Unauthorized,
}

} // verus!
