//! The sale's persistent records: the singleton `PresaleConfig` store with
//! its escrow balance, the participation event record, and the error kinds.

use vstd::prelude::*;

verus! {

/// An account address on the host ledger. The host's full-width public keys
/// are opaque to the sale logic, which only stores and forwards them, so a
/// plain integer identifier stands for one here.
#[derive(Clone, Copy, PartialEq, Eq, Structural, Debug)]
pub struct Address {
    pub value: u64,
}

/// The terms and live counters of the sale: one instance ever exists, held
/// by a [`PresaleStore`].
#[derive(Clone, Copy, PartialEq, Eq, Structural, Debug)]
pub struct PresaleConfig {
    /// The sale operator: receives all payments.
    pub admin: Address,
    /// The fungible asset being sold; immutable after creation.
    pub token_mint: Address,
    /// Payment units owed per unit of asset.
    pub price_per_token: u64,
    /// Total units escrowed at creation; immutable after creation.
    pub total_tokens: u64,
    /// Units sold so far; starts at 0 and only ever grows.
    pub tokens_sold: u64,
    /// First timestamp (inclusive) at which participation is permitted.
    pub presale_start: i64,
    /// Last timestamp (inclusive) at which participation is permitted.
    pub presale_end: i64,
}

/// The failure reasons that the exchange engine itself decides.
#[derive(Clone, Copy, PartialEq, Eq, Structural, Debug)]
pub enum PresaleError {
    /// The current time lies outside `[presale_start, presale_end]`.
    PresaleNotActive,
    /// The requested amount would exceed the remaining supply.
    InsufficientTokens,
    /// `amount * price_per_token` overflows the integer domain.
    CalculationError,
}

/// Failures of the host's preconditions, observed by an operation before it
/// applies any effect: the operation as a whole is the unit that fails.
#[derive(Clone, Copy, PartialEq, Eq, Structural, Debug)]
pub enum HostError {
    /// A sale record already exists: the sale is a true singleton.
    AlreadyCreated,
    /// The paying account does not hold the balance the operation moves.
    InsufficientBalance,
}

/// Everything that can make a participation fail: one of the engine's own
/// checks, or a host precondition on the payment leg.
#[derive(Clone, Copy, PartialEq, Eq, Structural, Debug)]
pub enum ParticipateError {
    Sale(PresaleError),
    Host(HostError),
}

/// The record of one completed purchase, handed to the host for emission as
/// a durable log entry; never consumed internally.
#[derive(Clone, Copy, PartialEq, Eq, Structural, Debug)]
pub struct PresaleParticipation {
    pub buyer: Address,
    pub amount: u64,
    pub total_cost: u64,
}

/// The singleton store: the sale record, if one was ever created, together
/// with the escrow custody balance bound to it. The fields are private —
/// only the exchange engine's operations ever move the escrow or the
/// counter, which models the escrow's derived keyless authority: no caller
/// can act on it directly.
pub struct PresaleStore {
    config: Option<PresaleConfig>,
    escrow_assets: u64,
}

impl PresaleStore {
    /// The sale record, if the sale has been created.
    pub closed spec fn spec_config(self) -> Option<PresaleConfig> {
        self.config
    }

    /// Units of the sale asset held in escrow custody.
    pub closed spec fn spec_escrow(self) -> u64 {
        self.escrow_assets
    }

    /// Whether the singleton sale has been created.
    pub open spec fn is_created(self) -> bool {
        self.spec_config() is Some
    }

    /// The sale record; meaningful only when `is_created()`.
    pub open spec fn sale(self) -> PresaleConfig {
        self.spec_config()->Some_0
    }

    /// The store's invariant: the counter never exceeds the supply, and the
    /// escrow holds exactly the unsold units. Before creation the escrow is
    /// empty.
    pub open spec fn wf(self) -> bool {
        &&& self.is_created() ==> {
            &&& self.sale().tokens_sold <= self.sale().total_tokens
            &&& self.spec_escrow()
                == self.sale().total_tokens - self.sale().tokens_sold
        }
        &&& !self.is_created() ==> self.spec_escrow() == 0
    }

    /// A fresh deployment: no sale exists yet.
    pub fn new() -> (s: Self)
        ensures
            !s.is_created(),
            s.wf(),
    {
        PresaleStore { config: None, escrow_assets: 0 }
    }

    /// Read the sale record, if any.
    pub fn config(&self) -> (c: Option<PresaleConfig>)
        ensures
            c == self.spec_config(),
    {
        self.config
    }

    /// Read the escrow custody balance.
    pub fn escrow_balance(&self) -> (b: u64)
        ensures
            b == self.spec_escrow(),
    {
        self.escrow_assets
    }

    /// Install the just-created sale record with its escrowed supply. Kept
    /// inside the crate: only the creation operation may call it.
    pub(crate) fn install(&mut self, c: PresaleConfig)
        requires
            !old(self).is_created(),
            c.tokens_sold == 0,
        ensures
            final(self).spec_config() == Some(c),
            final(self).spec_escrow() == c.total_tokens,
    {
        self.config = Some(c);
        self.escrow_assets = c.total_tokens;
    }

    /// Record one sale: move `amount` units out of escrow and add them to
    /// the sold counter, as a single step. Kept inside the crate: only the
    /// exchange engine may call it.
    pub(crate) fn record_sale(&mut self, amount: u64)
        requires
            old(self).wf(),
            old(self).is_created(),
            old(self).sale().tokens_sold + amount <= old(self).sale().total_tokens,
        ensures
            final(self).spec_config() == Some(sold_to(old(self).sale(), amount)),
            final(self).spec_escrow() == old(self).spec_escrow() - amount,
            final(self).wf(),
    {
        let c = self.config.unwrap();
        self.config = Some(
            PresaleConfig { tokens_sold: c.tokens_sold + amount, ..c },
        );
        self.escrow_assets = self.escrow_assets - amount;
    }
}

/// The sale's implicit lifecycle, read off the clock and the counters and
/// never stored: a sale becomes active when the window opens and ends when
/// the window closes or the supply runs out. The transition out of `Active`
/// is observed by later calls, not triggered.
pub enum SalePhase {
    NotStarted,
    Active,
    Ended,
}

/// Where the sale stands at time `now`.
pub open spec fn phase(c: PresaleConfig, now: i64) -> SalePhase {
    if now < c.presale_start {
        SalePhase::NotStarted
    } else if now <= c.presale_end && c.tokens_sold < c.total_tokens {
        SalePhase::Active
    } else {
        SalePhase::Ended
    }
}

/// The sale record after one successful purchase of `amount` units: the
/// counter grows by exactly `amount`, every term is untouched.
pub open spec fn sold_to(c: PresaleConfig, amount: u64) -> PresaleConfig
    recommends
        c.tokens_sold + amount <= u64::MAX,
{
    PresaleConfig { tokens_sold: (c.tokens_sold + amount) as u64, ..c }
}

} // verus!
