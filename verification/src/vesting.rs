use crate::errors::PresaleError;
use crate::ids::{id_eq, Pubkey};
use crate::state::{SaleConfig, Vesting};
use crate::vesting_math::{calculate_vested_amount, lemma_vested_amount_range, spec_vested_amount};
use vstd::prelude::*;

verus! {

/// The records and identities a `create_vesting` transition reads.
#[derive(Clone, Copy, Debug)]
pub struct CreateVesting {
    /// The sale record whose owner administers vesting grants.
    pub sale_config: SaleConfig,
    /// Verified identity of the caller; must be the sale owner.
    pub owner: Pubkey,
}

/// What `create_vesting` decides, as a function of its inputs.
pub open spec fn spec_create_vesting(
    accounts: CreateVesting,
    beneficiary: Pubkey,
    total_amount: u64,
    start_ts: i64,
    cliff_seconds: u64,
    duration_seconds: u64,
    revocable: bool,
) -> Result<Vesting, PresaleError> {
    if accounts.owner@ != accounts.sale_config.owner@ {
        Err(PresaleError::Unauthorized)
    } else if total_amount == 0 {
        Err(PresaleError::InvalidAllocation)
    } else if duration_seconds == 0 {
        Err(PresaleError::InvalidDuration)
    } else if cliff_seconds > duration_seconds {
        Err(PresaleError::InvalidCliff)
    } else {
        Ok(
            Vesting {
                beneficiary,
                total_amount,
                released: 0,
                start_ts,
                cliff_seconds,
                duration_seconds,
                revocable,
                revoked: false,
            },
        )
    }
}

/// Grants a beneficiary a time-released schedule: validates the
/// parameters and returns the record the host must persist, with
/// nothing released and nothing revoked.
pub fn create_vesting(
    accounts: &CreateVesting,
    beneficiary: Pubkey,
    total_amount: u64,
    start_ts: i64,
    cliff_seconds: u64,
    duration_seconds: u64,
    revocable: bool,
) -> (r: Result<Vesting, PresaleError>)
    ensures
        r == spec_create_vesting(
            *accounts,
            beneficiary,
            total_amount,
            start_ts,
            cliff_seconds,
            duration_seconds,
            revocable,
        ),
        r is Ok <==> accounts.owner@ == accounts.sale_config.owner@ && total_amount > 0
            && duration_seconds > 0 && cliff_seconds <= duration_seconds,
        (r matches Ok(v) ==> v.wf() && v.released == 0 && !v.revoked && v.beneficiary@
            == beneficiary@),
{
    if !id_eq(&accounts.owner, &accounts.sale_config.owner) {
        return Err(PresaleError::Unauthorized);
    }
    if total_amount == 0 {
        return Err(PresaleError::InvalidAllocation);
    }
    if duration_seconds == 0 {
        return Err(PresaleError::InvalidDuration);
    }
    if cliff_seconds > duration_seconds {
        return Err(PresaleError::InvalidCliff);
    }
    Ok(
        Vesting {
            beneficiary,
            total_amount,
            released: 0,
            start_ts,
            cliff_seconds,
            duration_seconds,
            revocable,
            revoked: false,
        },
    )
}

/// The record and identities a claim transition reads.
#[derive(Clone, Copy, Debug)]
pub struct ClaimVested {
    /// The beneficiary's schedule record.
    pub vesting: Vesting,
    /// Verified identity of the caller; must be the beneficiary.
    pub beneficiary: Pubkey,
    /// Current time from the host's clock oracle.
    pub now: i64,
}

/// Everything a successful claim commits, as one atomic unit: the host
/// transfers `claimable` tokens from the vault to the beneficiary and
/// persists the updated schedule, or discards the outcome whole.
#[derive(Clone, Copy, Debug)]
pub struct ClaimOutcome {
    /// The schedule with the claim accounted for.
    pub vesting: Vesting,
    /// The newly vested tokens owed to the beneficiary; positive.
    pub claimable: u64,
}

/// What a claim decides, as a function of its inputs; the checks run
/// in the order listed, and the first failure names the error.
pub open spec fn spec_claim_vested(accounts: ClaimVested) -> Result<ClaimOutcome, PresaleError> {
    let v = accounts.vesting;
    let vested = spec_vested_amount(v, accounts.now as int);
    if v.revoked {
        Err(PresaleError::VestingRevoked)
    } else if accounts.beneficiary@ != v.beneficiary@ {
        Err(PresaleError::Unauthorized)
    } else if vested < v.released {
        Err(PresaleError::Underflow)
    } else if vested == v.released {
        Err(PresaleError::NothingToClaim)
    } else {
        Ok(
            ClaimOutcome {
                vesting: Vesting { released: vested as u64, ..v },
                claimable: (vested - v.released) as u64,
            },
        )
    }
}

/// Claims the tokens vested since the last claim.
///
/// Never releases anything twice: what is owed is exactly the vested
/// amount minus what was already released, and the updated record
/// raises `released` to the vested amount and nothing further.
pub fn claim_vested(accounts: &ClaimVested) -> (r: Result<ClaimOutcome, PresaleError>)
    requires
        accounts.vesting.wf(),
    ensures
        r == spec_claim_vested(*accounts),
        accounts.vesting.revoked ==> r == Err::<ClaimOutcome, PresaleError>(
            PresaleError::VestingRevoked,
        ),
        (r matches Ok(o) ==> {
            &&& o.claimable > 0
            &&& o.vesting.released == accounts.vesting.released + o.claimable
            &&& o.vesting.released == spec_vested_amount(accounts.vesting, accounts.now as int)
            &&& o.vesting == (Vesting { released: o.vesting.released, ..accounts.vesting })
            &&& o.vesting.wf()
            &&& !o.vesting.revoked
        }),
{
    let v = &accounts.vesting;
    if v.revoked {
        return Err(PresaleError::VestingRevoked);
    }
    if !id_eq(&accounts.beneficiary, &v.beneficiary) {
        return Err(PresaleError::Unauthorized);
    }
    let vested = calculate_vested_amount(v, accounts.now);
    let claimable = match vested.checked_sub(v.released) {
        Some(c) => c,
        None => {
            return Err(PresaleError::Underflow);
        },
    };
    if claimable == 0 {
        return Err(PresaleError::NothingToClaim);
    }
    proof {
        lemma_vested_amount_range(*v, accounts.now as int);
    }
    let new_released = v.released + claimable;
    Ok(
        ClaimOutcome {
            vesting: Vesting {
                beneficiary: v.beneficiary,
                total_amount: v.total_amount,
                released: new_released,
                start_ts: v.start_ts,
                cliff_seconds: v.cliff_seconds,
                duration_seconds: v.duration_seconds,
                revocable: v.revocable,
                revoked: v.revoked,
            },
            claimable,
        },
    )
}

/// The records and identities a revocation transition reads.
#[derive(Clone, Copy, Debug)]
pub struct RevokeVesting {
    /// The sale record whose owner administers vesting grants.
    pub sale_config: SaleConfig,
    /// The schedule record to revoke.
    pub vesting: Vesting,
    /// Verified identity of the caller; must be the sale owner.
    pub owner: Pubkey,
    /// Current time from the host's clock oracle.
    pub now: i64,
}

/// Everything a successful revocation commits, as one atomic unit: the
/// host returns `unvested` tokens from the vault to the treasury (when
/// positive) and persists the revoked schedule, or discards the
/// outcome whole.
#[derive(Clone, Copy, Debug)]
pub struct RevokeOutcome {
    /// The schedule, frozen: revoked, with `released` untouched.
    pub vesting: Vesting,
    /// The not-yet-vested remainder owed back to the treasury.
    pub unvested: u64,
}

/// What a revocation decides, as a function of its inputs; the checks
/// run in the order listed, and the first failure names the error.
pub open spec fn spec_revoke_vesting(accounts: RevokeVesting) -> Result<
    RevokeOutcome,
    PresaleError,
> {
    let v = accounts.vesting;
    if accounts.owner@ != accounts.sale_config.owner@ {
        Err(PresaleError::Unauthorized)
    } else if !v.revocable {
        Err(PresaleError::NotRevocable)
    } else if v.revoked {
        Err(PresaleError::AlreadyRevoked)
    } else {
        let vested = spec_vested_amount(v, accounts.now as int);
        Ok(
            RevokeOutcome {
                vesting: Vesting { revoked: true, ..v },
                unvested: (v.total_amount - vested) as u64,
            },
        )
    }
}

/// Revokes a revocable schedule: freezes `released` at its current
/// value and hands the unvested remainder back to the treasury. What
/// vested but was never claimed before this moment is forfeited.
pub fn revoke_vesting(accounts: &RevokeVesting) -> (r: Result<RevokeOutcome, PresaleError>)
    requires
        accounts.vesting.wf(),
    ensures
        r == spec_revoke_vesting(*accounts),
        (r matches Ok(o) ==> {
            &&& o.vesting.revoked
            &&& o.vesting == (Vesting { revoked: true, ..accounts.vesting })
            &&& o.vesting.released == accounts.vesting.released
            &&& o.unvested == accounts.vesting.total_amount - spec_vested_amount(
                accounts.vesting,
                accounts.now as int,
            )
            &&& o.vesting.wf()
        }),
{
    if !id_eq(&accounts.owner, &accounts.sale_config.owner) {
        return Err(PresaleError::Unauthorized);
    }
    let v = &accounts.vesting;
    if !v.revocable {
        return Err(PresaleError::NotRevocable);
    }
    if v.revoked {
        return Err(PresaleError::AlreadyRevoked);
    }
    let vested = calculate_vested_amount(v, accounts.now);
    proof {
        lemma_vested_amount_range(*v, accounts.now as int);
    }
    let unvested = v.total_amount - vested;
    Ok(
        RevokeOutcome {
            vesting: Vesting {
                beneficiary: v.beneficiary,
                total_amount: v.total_amount,
                released: v.released,
                start_ts: v.start_ts,
                cliff_seconds: v.cliff_seconds,
                duration_seconds: v.duration_seconds,
                revocable: v.revocable,
                revoked: true,
            },
            unvested,
        },
    )
}

/// Law: a claim only ever releases the freshly vested remainder, and a
/// second claim at the same time finds nothing left to claim.
pub proof fn lemma_claim_idempotent_at_same_time(accounts: ClaimVested)
    requires
        accounts.vesting.wf(),
        spec_claim_vested(accounts) is Ok,
    ensures
        spec_claim_vested(
            ClaimVested { vesting: spec_claim_vested(accounts)->Ok_0.vesting, ..accounts },
        ) == Err::<ClaimOutcome, PresaleError>(PresaleError::NothingToClaim),
{
    lemma_vested_amount_range(accounts.vesting, accounts.now as int);
    let committed = spec_claim_vested(accounts)->Ok_0.vesting;
    assert(spec_vested_amount(committed, accounts.now as int) == spec_vested_amount(
        accounts.vesting,
        accounts.now as int,
    ));
}

/// Law: once a revocation has succeeded, `released` is frozen at its
/// value at revocation time, and every later claim on the committed
/// schedule — by any caller, at any time — fails with `VestingRevoked`.
/// A failed claim produces no outcome, so `released` never changes
/// again.
pub proof fn lemma_revoked_schedule_rejects_claims(
    accounts: RevokeVesting,
    caller: Pubkey,
    later: i64,
)
    requires
        spec_revoke_vesting(accounts) is Ok,
    ensures
        spec_revoke_vesting(accounts)->Ok_0.vesting.released == accounts.vesting.released,
        spec_claim_vested(
            ClaimVested {
                vesting: spec_revoke_vesting(accounts)->Ok_0.vesting,
                beneficiary: caller,
                now: later,
            },
        ) == Err::<ClaimOutcome, PresaleError>(PresaleError::VestingRevoked),
{
}

} // verus!
