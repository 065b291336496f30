use crate::errors::PresaleError;
use crate::ids::{id_eq, Pubkey};
use crate::state::{BuyerEscrow, SaleConfig, VoucherData};
use vstd::prelude::*;

verus! {

/// The identities an `initialize_sale` transition binds into the new
/// sale record. The caller is the owner: the host has already verified
/// its signature over the request.
#[derive(Clone, Copy, Debug)]
pub struct InitializeSale {
    /// Verified identity of the calling administrator.
    pub owner: Pubkey,
    /// The asset to be sold.
    pub token_mint: Pubkey,
    /// Destination of buyers' payments.
    pub treasury: Pubkey,
}

/// What `initialize_sale` decides, as a function of its inputs.
pub open spec fn spec_initialize_sale(
    accounts: InitializeSale,
    price_lamports_per_token: u64,
    start_ts: i64,
    end_ts: i64,
    total_allocated: u64,
) -> Result<SaleConfig, PresaleError> {
    if start_ts >= end_ts {
        Err(PresaleError::InvalidTimeRange)
    } else if total_allocated == 0 {
        Err(PresaleError::InvalidAllocation)
    } else {
        Ok(
            SaleConfig {
                owner: accounts.owner,
                token_mint: accounts.token_mint,
                treasury: accounts.treasury,
                price_lamports_per_token,
                start_ts,
                end_ts,
                total_allocated,
                sold: 0,
            },
        )
    }
}

/// Opens a sale: validates the configuration and returns the record
/// the host must persist, with nothing sold yet.
pub fn initialize_sale(
    accounts: &InitializeSale,
    price_lamports_per_token: u64,
    start_ts: i64,
    end_ts: i64,
    total_allocated: u64,
) -> (r: Result<SaleConfig, PresaleError>)
    ensures
        r == spec_initialize_sale(
            *accounts,
            price_lamports_per_token,
            start_ts,
            end_ts,
            total_allocated,
        ),
        r is Ok <==> start_ts < end_ts && total_allocated > 0,
        (r matches Ok(s) ==> s.wf() && s.sold == 0),
{
    if start_ts >= end_ts {
        return Err(PresaleError::InvalidTimeRange);
    }
    if total_allocated == 0 {
        return Err(PresaleError::InvalidAllocation);
    }
    Ok(
        SaleConfig {
            owner: accounts.owner,
            token_mint: accounts.token_mint,
            treasury: accounts.treasury,
            price_lamports_per_token,
            start_ts,
            end_ts,
            total_allocated,
            sold: 0,
        },
    )
}

/// The records and identities a purchase transition reads. The host
/// loads the sale record and the (sale, buyer) escrow record — a
/// zeroed escrow where none was persisted yet — and reads its clock.
#[derive(Clone, Copy, Debug)]
pub struct BuyWithVoucher {
    /// Derived address of the sale record, as the voucher must name it.
    pub sale: Pubkey,
    /// The sale record at that address.
    pub sale_config: SaleConfig,
    /// Verified identity of the calling buyer.
    pub buyer: Pubkey,
    /// The escrow record keyed by (sale, buyer); a positive allocation
    /// in it means this pair already purchased.
    pub buyer_escrow: BuyerEscrow,
    /// Current time from the host's clock oracle.
    pub now: i64,
}

/// Everything a successful purchase commits, as one atomic unit: the
/// host transfers `payment_lamports` from the buyer to the treasury
/// and persists both records, or discards the outcome whole.
#[derive(Clone, Copy, Debug)]
pub struct PurchaseOutcome {
    /// The sale record with the purchase accounted for.
    pub sale_config: SaleConfig,
    /// The escrow record proving the grant; its existence blocks every
    /// later voucher for the same (sale, buyer) pair.
    pub buyer_escrow: BuyerEscrow,
    /// The payment owed by the buyer, in lamports.
    pub payment_lamports: u64,
}

/// The conditions under which a purchase succeeds; under any other
/// input it is rejected with the first failing check's error.
pub open spec fn spec_purchase_allowed(
    accounts: BuyWithVoucher,
    allocation: u64,
    voucher: VoucherData,
    signature_valid: bool,
) -> bool {
    &&& accounts.sale_config.start_ts <= accounts.now <= accounts.sale_config.end_ts
    &&& voucher.buyer@ == accounts.buyer@
    &&& voucher.sale@ == accounts.sale@
    &&& accounts.now <= voucher.expiry_ts
    &&& 0 < allocation <= voucher.max_allocation
    &&& accounts.sale_config.sold + allocation <= accounts.sale_config.total_allocated
    &&& signature_valid
    &&& accounts.buyer_escrow.allocation == 0
    &&& allocation * accounts.sale_config.price_lamports_per_token <= u64::MAX
}

/// What a purchase decides, as a function of its inputs; the checks
/// run in the order listed, and the first failure names the error.
pub open spec fn spec_buy_with_voucher(
    accounts: BuyWithVoucher,
    allocation: u64,
    voucher: VoucherData,
    signature_valid: bool,
) -> Result<PurchaseOutcome, PresaleError> {
    let s = accounts.sale_config;
    if accounts.now < s.start_ts {
        Err(PresaleError::SaleNotStarted)
    } else if accounts.now > s.end_ts {
        Err(PresaleError::SaleEnded)
    } else if voucher.buyer@ != accounts.buyer@ {
        Err(PresaleError::InvalidVoucher)
    } else if voucher.sale@ != accounts.sale@ {
        Err(PresaleError::InvalidVoucher)
    } else if voucher.expiry_ts < accounts.now {
        Err(PresaleError::VoucherExpired)
    } else if allocation > voucher.max_allocation {
        Err(PresaleError::ExceedsAllocation)
    } else if allocation == 0 {
        Err(PresaleError::InvalidAllocation)
    } else if s.sold + allocation > u64::MAX {
        Err(PresaleError::Overflow)
    } else if s.sold + allocation > s.total_allocated {
        Err(PresaleError::InsufficientSupply)
    } else if !signature_valid {
        Err(PresaleError::InvalidVoucher)
    } else if accounts.buyer_escrow.allocation != 0 {
        Err(PresaleError::VoucherAlreadyUsed)
    } else if allocation * s.price_lamports_per_token > u64::MAX {
        Err(PresaleError::Overflow)
    } else {
        Ok(
            PurchaseOutcome {
                sale_config: SaleConfig { sold: (s.sold + allocation) as u64, ..s },
                buyer_escrow: BuyerEscrow {
                    sale: accounts.sale,
                    buyer: accounts.buyer,
                    allocation,
                    claimed: 0,
                },
                payment_lamports: (allocation * s.price_lamports_per_token) as u64,
            },
        )
    }
}

/// Redeems a voucher and accounts for the purchase.
///
/// `signature_valid` is the host's verdict on the presented signature
/// over `voucher_message(voucher)` against the configured issuer key;
/// the transition rejects the voucher whenever the verdict is false.
/// The supply check and the supply increment happen in this one
/// decision, never as two separately visible steps.
pub fn buy_with_voucher(
    accounts: &BuyWithVoucher,
    allocation: u64,
    voucher: &VoucherData,
    signature_valid: bool,
) -> (r: Result<PurchaseOutcome, PresaleError>)
    requires
        accounts.sale_config.wf(),
    ensures
        r == spec_buy_with_voucher(*accounts, allocation, *voucher, signature_valid),
        r is Ok <==> spec_purchase_allowed(*accounts, allocation, *voucher, signature_valid),
        (r matches Ok(o) ==> {
            &&& o.sale_config == (SaleConfig {
                sold: (accounts.sale_config.sold + allocation) as u64,
                ..accounts.sale_config
            })
            &&& o.sale_config.sold == accounts.sale_config.sold + allocation
            &&& o.sale_config.wf()
            &&& o.buyer_escrow == (BuyerEscrow {
                sale: accounts.sale,
                buyer: accounts.buyer,
                allocation,
                claimed: 0,
            })
            &&& o.buyer_escrow.allocation > 0
            &&& o.payment_lamports == allocation * accounts.sale_config.price_lamports_per_token
        }),
{
    let s = &accounts.sale_config;
    if accounts.now < s.start_ts {
        return Err(PresaleError::SaleNotStarted);
    }
    if accounts.now > s.end_ts {
        return Err(PresaleError::SaleEnded);
    }
    if !id_eq(&voucher.buyer, &accounts.buyer) {
        return Err(PresaleError::InvalidVoucher);
    }
    if !id_eq(&voucher.sale, &accounts.sale) {
        return Err(PresaleError::InvalidVoucher);
    }
    if voucher.expiry_ts < accounts.now {
        return Err(PresaleError::VoucherExpired);
    }
    if allocation > voucher.max_allocation {
        return Err(PresaleError::ExceedsAllocation);
    }
    if allocation == 0 {
        return Err(PresaleError::InvalidAllocation);
    }
    let new_sold = match s.sold.checked_add(allocation) {
        Some(n) => n,
        None => {
            return Err(PresaleError::Overflow);
        },
    };
    if new_sold > s.total_allocated {
        return Err(PresaleError::InsufficientSupply);
    }
    if !signature_valid {
        return Err(PresaleError::InvalidVoucher);
    }
    if accounts.buyer_escrow.allocation != 0 {
        return Err(PresaleError::VoucherAlreadyUsed);
    }
    let payment_lamports = match allocation.checked_mul(s.price_lamports_per_token) {
        Some(p) => p,
        None => {
            return Err(PresaleError::Overflow);
        },
    };
    Ok(
        PurchaseOutcome {
            sale_config: SaleConfig {
                owner: s.owner,
                token_mint: s.token_mint,
                treasury: s.treasury,
                price_lamports_per_token: s.price_lamports_per_token,
                start_ts: s.start_ts,
                end_ts: s.end_ts,
                total_allocated: s.total_allocated,
                sold: new_sold,
            },
            buyer_escrow: BuyerEscrow {
                sale: accounts.sale,
                buyer: accounts.buyer,
                allocation,
                claimed: 0,
            },
            payment_lamports,
        },
    )
}

/// Law: supply accounting is safe. A purchase never decreases `sold`,
/// never pushes it past the cap, and never touches the cap itself; a
/// rejected purchase produces no outcome at all, so `sold` moves only
/// through the successful case stated here.
pub proof fn lemma_purchase_supply_safe(
    accounts: BuyWithVoucher,
    allocation: u64,
    voucher: VoucherData,
    signature_valid: bool,
)
    requires
        accounts.sale_config.wf(),
    ensures
        (spec_buy_with_voucher(accounts, allocation, voucher, signature_valid) matches Ok(o)
            ==> {
            &&& o.sale_config.sold >= accounts.sale_config.sold
            &&& o.sale_config.sold <= o.sale_config.total_allocated
            &&& o.sale_config.total_allocated == accounts.sale_config.total_allocated
            &&& o.sale_config.wf()
        }),
{
}

/// Law: a (sale, buyer) pair completes a purchase at most once. Once a
/// purchase has succeeded, the escrow it committed carries a positive
/// allocation, and any later purchase that finds that escrow — the
/// same voucher replayed, or a fresh voucher with another nonce for
/// the same pair — is rejected.
pub proof fn lemma_purchase_replay_rejected(
    first: BuyWithVoucher,
    allocation1: u64,
    voucher1: VoucherData,
    sig1: bool,
    second: BuyWithVoucher,
    allocation2: u64,
    voucher2: VoucherData,
    sig2: bool,
)
    requires
        spec_buy_with_voucher(first, allocation1, voucher1, sig1) is Ok,
        second.buyer_escrow == spec_buy_with_voucher(
            first,
            allocation1,
            voucher1,
            sig1,
        )->Ok_0.buyer_escrow,
    ensures
        spec_buy_with_voucher(second, allocation2, voucher2, sig2) is Err,
{
}

} // verus!
