//! Sale-wide guarantees that relate whole sequences of operations, proved
//! once and for all over the engine's transition.
//!
//! A participation that succeeds turns the sale record `c` into
//! [`sold_to`]`(c, amount)` — that is what [`crate::engine::participate`]
//! ensures — so a run of successful purchases is a fold of `sold_to` over
//! the accepted calls. The law here speaks about every such run.

use crate::engine::participation_outcome;
use crate::state::PresaleConfig;
use crate::state::SalePhase;
use crate::state::phase;
use crate::state::sold_to;
use vstd::prelude::*;

verus! {

/// The exact sum of the amounts purchased by a sequence of calls, each call
/// a `(time, amount)` pair.
pub open spec fn amount_total(calls: Seq<(i64, u64)>) -> int
    decreases calls.len(),
{
    if calls.len() == 0 {
        0
    } else {
        calls[0].1 + amount_total(calls.subrange(1, calls.len() as int))
    }
}

/// Whether every call in the sequence, run in order against the sale record
/// `c`, passes all three participation checks at its own time.
pub open spec fn all_accepted(c: PresaleConfig, calls: Seq<(i64, u64)>) -> bool
    decreases calls.len(),
{
    calls.len() == 0 || {
        &&& participation_outcome(c, calls[0].0, calls[0].1) is Ok
        &&& all_accepted(sold_to(c, calls[0].1), calls.subrange(1, calls.len() as int))
    }
}

/// The sale record after the whole sequence of successful calls.
pub open spec fn after_calls(c: PresaleConfig, calls: Seq<(i64, u64)>) -> PresaleConfig
    decreases calls.len(),
{
    if calls.len() == 0 {
        c
    } else {
        after_calls(sold_to(c, calls[0].1), calls.subrange(1, calls.len() as int))
    }
}

/// For every sequence of successful participations, the sold counter ends
/// at its starting value plus the exact sum of the purchased amounts — so
/// it never decreases — and it never exceeds the total supply. Every term
/// of the sale other than the counter is untouched.
pub proof fn lemma_units_sold_is_sum(c: PresaleConfig, calls: Seq<(i64, u64)>)
    requires
        c.tokens_sold <= c.total_tokens,
        all_accepted(c, calls),
    ensures
        after_calls(c, calls).tokens_sold == c.tokens_sold + amount_total(calls),
        c.tokens_sold <= after_calls(c, calls).tokens_sold,
        after_calls(c, calls).tokens_sold <= c.total_tokens,
        after_calls(c, calls) == (PresaleConfig {
            tokens_sold: after_calls(c, calls).tokens_sold,
            ..c
        }),
    decreases calls.len(),
{
    if calls.len() > 0 {
        let rest = calls.subrange(1, calls.len() as int);
        lemma_amount_total_nonnegative(rest);
        lemma_units_sold_is_sum(sold_to(c, calls[0].1), rest);
    }
}

/// A purchase of a positive amount is accepted only while the sale is
/// active: inside the window, with supply remaining. (A request of zero
/// units passes every check even once the supply is gone, so it is left
/// out.)
pub proof fn lemma_success_only_while_active(c: PresaleConfig, now: i64, amount: u64)
    requires
        amount > 0,
        participation_outcome(c, now, amount) is Ok,
    ensures
        phase(c, now) is Active,
{
}

/// A sum of unsigned amounts is never negative.
pub proof fn lemma_amount_total_nonnegative(calls: Seq<(i64, u64)>)
    ensures
        amount_total(calls) >= 0,
    decreases calls.len(),
{
    if calls.len() > 0 {
        lemma_amount_total_nonnegative(calls.subrange(1, calls.len() as int));
    }
}

} // verus!
