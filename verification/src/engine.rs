//! The exchange engine: sale creation (escrow funding) and participation
//! (atomic payment-for-asset exchange).
//!
//! Each operation is one all-or-nothing invocation: the host hands it
//! exclusive access to the store and to the involved account balances, and
//! either every listed effect happens or none does. Account balances are
//! plain `u64` holdings; the host performs the actual ledger movements, but
//! their arithmetic — and the decision whether they happen at all — is what
//! is proved here.

use crate::state::Address;
use crate::state::HostError;
use crate::state::ParticipateError;
use crate::state::PresaleConfig;
use crate::state::PresaleError;
use crate::state::PresaleParticipation;
use crate::state::PresaleStore;
use crate::state::sold_to;
use vstd::prelude::*;

verus! {

/// What the engine decides for a purchase of `amount` units at time `now`,
/// given the sale's terms: the first failing check in the required order
/// (window, remaining supply, cost overflow), or the total cost owed.
pub open spec fn participation_outcome(
    c: PresaleConfig,
    now: i64,
    amount: u64,
) -> Result<u64, PresaleError> {
    if now < c.presale_start || now > c.presale_end {
        Err(PresaleError::PresaleNotActive)
    } else if c.tokens_sold + amount > c.total_tokens {
        Err(PresaleError::InsufficientTokens)
    } else if amount * c.price_per_token > u64::MAX {
        Err(PresaleError::CalculationError)
    } else {
        Ok((amount * c.price_per_token) as u64)
    }
}

/// Validate a purchase request against the sale's terms and the clock,
/// without touching anything: the three checks of a participation, in
/// order, ending in the total cost. This is the decision step that a host
/// shell runs before it moves any funds.
pub fn check_participation(c: &PresaleConfig, now: i64, amount: u64) -> (r: Result<
    u64,
    PresaleError,
>)
    ensures
        r == participation_outcome(*c, now, amount),
{
    if now < c.presale_start || now > c.presale_end {
        return Err(PresaleError::PresaleNotActive);
    }
    let sold_after: Option<u64> = c.tokens_sold.checked_add(amount);
    match sold_after {
        None => {
            return Err(PresaleError::InsufficientTokens);
        },
        Some(sold) => {
            if sold > c.total_tokens {
                return Err(PresaleError::InsufficientTokens);
            }
        },
    }
    match amount.checked_mul(c.price_per_token) {
        None => Err(PresaleError::CalculationError),
        Some(total_cost) => Ok(total_cost),
    }
}

/// Create the singleton sale: persist the supplied terms with a zeroed
/// counter and move exactly `total_tokens` units from the administrator's
/// holding account into escrow custody, atomically. Fails — with nothing
/// changed — if a sale already exists, or if the administrator's holding
/// account is short.
///
/// The terms themselves are stored unvalidated, as handed in: a window with
/// `presale_start > presale_end` yields a sale that is never active, and a
/// zero price sells for nothing. Rejecting such terms is left to the
/// operator.
pub fn create_presale(
    store: &mut PresaleStore,
    admin: Address,
    token_mint: Address,
    price_per_token: u64,
    total_tokens: u64,
    presale_start: i64,
    presale_end: i64,
    admin_assets: &mut u64,
) -> (r: Result<(), HostError>)
    requires
        old(store).wf(),
    ensures
        final(store).wf(),
        old(store).is_created() ==> {
            &&& r == Err::<(), HostError>(HostError::AlreadyCreated)
            &&& *final(store) == *old(store)
            &&& *final(admin_assets) == *old(admin_assets)
        },
        !old(store).is_created() && *old(admin_assets) < total_tokens ==> {
            &&& r == Err::<(), HostError>(HostError::InsufficientBalance)
            &&& *final(store) == *old(store)
            &&& *final(admin_assets) == *old(admin_assets)
        },
        !old(store).is_created() && *old(admin_assets) >= total_tokens ==> {
            &&& r == Ok::<(), HostError>(())
            &&& final(store).spec_config() == Some(
                PresaleConfig {
                    admin,
                    token_mint,
                    price_per_token,
                    total_tokens,
                    tokens_sold: 0,
                    presale_start,
                    presale_end,
                },
            )
            &&& final(store).spec_escrow() == total_tokens
            &&& *final(admin_assets) == *old(admin_assets) - total_tokens
        },
{
    if store.config().is_some() {
        return Err(HostError::AlreadyCreated);
    }
    if *admin_assets < total_tokens {
        return Err(HostError::InsufficientBalance);
    }
    *admin_assets = *admin_assets - total_tokens;
    store.install(
        PresaleConfig {
            admin,
            token_mint,
            price_per_token,
            total_tokens,
            tokens_sold: 0,
            presale_start,
            presale_end,
        },
    );
    Ok(())
}

/// Buy `amount` units: validate against the sale's terms and the clock,
/// move the total cost from the buyer's payment account to the
/// administrator's, move `amount` units from escrow custody to the buyer's
/// holding account, add `amount` to the sold counter, and hand back the
/// participation record for the host to emit — all as one unit. Any failing
/// check aborts the whole exchange with every balance and the store
/// untouched.
///
/// The two `requires` on the balances state what holds of any real ledger:
/// the payment accounts hold one currency whose total circulation fits the
/// integer domain, as do the asset accounts of the sale's mint, so neither
/// receiving leg can overflow.
pub fn participate(
    store: &mut PresaleStore,
    now: i64,
    buyer: Address,
    amount: u64,
    buyer_payment: &mut u64,
    admin_payment: &mut u64,
    buyer_assets: &mut u64,
) -> (r: Result<PresaleParticipation, ParticipateError>)
    requires
        old(store).wf(),
        old(store).is_created(),
        *old(buyer_payment) + *old(admin_payment) <= u64::MAX,
        *old(buyer_assets) + old(store).spec_escrow() <= u64::MAX,
    ensures
        final(store).wf(),
        final(store).is_created(),
        match participation_outcome(old(store).sale(), now, amount) {
            Err(e) => {
                &&& r == Err::<PresaleParticipation, ParticipateError>(
                    ParticipateError::Sale(e),
                )
                &&& *final(store) == *old(store)
                &&& *final(buyer_payment) == *old(buyer_payment)
                &&& *final(admin_payment) == *old(admin_payment)
                &&& *final(buyer_assets) == *old(buyer_assets)
            },
            Ok(total_cost) => {
                if *old(buyer_payment) < total_cost {
                    &&& r == Err::<PresaleParticipation, ParticipateError>(
                        ParticipateError::Host(HostError::InsufficientBalance),
                    )
                    &&& *final(store) == *old(store)
                    &&& *final(buyer_payment) == *old(buyer_payment)
                    &&& *final(admin_payment) == *old(admin_payment)
                    &&& *final(buyer_assets) == *old(buyer_assets)
                } else {
                    &&& r == Ok::<PresaleParticipation, ParticipateError>(
                        (PresaleParticipation { buyer, amount, total_cost }),
                    )
                    &&& final(store).spec_config() == Some(
                        sold_to(old(store).sale(), amount),
                    )
                    &&& final(store).spec_escrow() == old(store).spec_escrow() - amount
                    &&& *final(buyer_payment) == *old(buyer_payment) - total_cost
                    &&& *final(admin_payment) == *old(admin_payment) + total_cost
                    &&& *final(buyer_assets) == *old(buyer_assets) + amount
                }
            },
        },
{
    let c = store.config().unwrap();
    let total_cost = match check_participation(&c, now, amount) {
        Err(e) => {
            return Err(ParticipateError::Sale(e));
        },
        Ok(total_cost) => total_cost,
    };
    if *buyer_payment < total_cost {
        return Err(ParticipateError::Host(HostError::InsufficientBalance));
    }
    *buyer_payment = *buyer_payment - total_cost;
    *admin_payment = *admin_payment + total_cost;
    *buyer_assets = *buyer_assets + amount;
    store.record_sale(amount);
    Ok(PresaleParticipation { buyer, amount, total_cost })
}

} // verus!
