//! The amounts that the requests of a market move: what is outstanding of
//! each asset class and what each account holds. This is a model to reason
//! with, not a token program: it knows amounts only, and leaves to the
//! token program who may sign for what.

use vstd::prelude::*;
use crate::instructions::buy::Buy;
use crate::instructions::sell::Sell;
use crate::instructions::sponsored_burn::SponsoredBurn;
use crate::state::address::Address;
use crate::token::Invocation;
use crate::utils::curve_math::checked_area;
use crate::utils::error_code::ErrorCode;

verus! {

/// The units outstanding of each asset class, and the units held in each
/// account. What is not listed is zero.
pub struct Ledger {
    pub supply: Map<Address, nat>,
    pub amount: Map<Address, nat>,
}

impl Ledger {
    /// The units outstanding of an asset class.
    pub open spec fn outstanding(self, mint: Address) -> nat {
        if self.supply.dom().contains(mint) {
            self.supply[mint]
        } else {
            0
        }
    }

    /// The units that an account holds.
    pub open spec fn held(self, account: Address) -> nat {
        if self.amount.dom().contains(account) {
            self.amount[account]
        } else {
            0
        }
    }

    /// The ledger with `amount` more units in the account.
    pub open spec fn credit(self, account: Address, amount: nat) -> Ledger {
        Ledger { amount: self.amount.insert(account, self.held(account) + amount), ..self }
    }

    /// The ledger with `amount` fewer units in the account.
    pub open spec fn debit(self, account: Address, amount: nat) -> Ledger {
        Ledger {
            amount: self.amount.insert(account, (self.held(account) - amount) as nat),
            ..self
        }
    }

    /// The ledger with `amount` more units outstanding of the asset class.
    pub open spec fn issue(self, mint: Address, amount: nat) -> Ledger {
        Ledger { supply: self.supply.insert(mint, self.outstanding(mint) + amount), ..self }
    }

    /// The ledger with `amount` fewer units outstanding of the asset class.
    pub open spec fn retire(self, mint: Address, amount: nat) -> Ledger {
        Ledger {
            supply: self.supply.insert(mint, (self.outstanding(mint) - amount) as nat),
            ..self
        }
    }

    /// The ledger after one request, or `None` where the amounts do not
    /// allow it: a transfer or a burn of more than the account holds, or a
    /// burn of more than is outstanding.
    /// Creating an asset class or an account moves no amount, and native
    /// coin is not kept here.
    pub open spec fn perform(self, invocation: Invocation) -> Option<Ledger> {
        match invocation {
            Invocation::Transfer(ctx, amount) => if self.held(ctx.accounts.from) < amount {
                None
            } else {
                Some(
                    self.debit(ctx.accounts.from, amount as nat).credit(
                        ctx.accounts.to,
                        amount as nat,
                    ),
                )
            },
            Invocation::MintTo(ctx, amount) => Some(
                self.issue(ctx.accounts.mint, amount as nat).credit(ctx.accounts.to, amount as nat),
            ),
            Invocation::Burn(ctx, amount) => if self.held(ctx.accounts.from) < amount
                || self.outstanding(ctx.accounts.mint) < amount {
                None
            } else {
                Some(
                    self.retire(ctx.accounts.mint, amount as nat).debit(
                        ctx.accounts.from,
                        amount as nat,
                    ),
                )
            },
            Invocation::Create(_) => Some(self),
            Invocation::InitializeMint(_, _, _) => Some(self),
            Invocation::InitializeAccount(_) => Some(self),
            Invocation::TransferLamports(_, _) => Some(self),
        }
    }

    /// The ledger after a whole operation: its requests one after the
    /// other, and nothing at all where one of them fails.
    pub open spec fn perform_all(self, invocations: Seq<Invocation>) -> Option<Ledger>
        decreases invocations.len(),
    {
        if invocations.len() == 0 {
            Some(self)
        } else {
            match self.perform(invocations[0]) {
                None => None,
                Some(next) => next.perform_all(invocations.drop_first()),
            }
        }
    }

    /// The accounts of a purchase hold what the ledger says.
    pub open spec fn shows_buy(self, ctx: Buy) -> bool {
        &&& self.outstanding(ctx.market_target_mint.address) == ctx.market_target_mint.supply
        &&& self.held(ctx.buyer_base_token_account.address) == ctx.buyer_base_token_account.amount
        &&& self.held(ctx.market_base_treasury.address) == ctx.market_base_treasury.amount
    }

    /// The account and the asset class of a sponsored burn hold what the
    /// ledger says.
    pub open spec fn shows_sponsored_burn(self, ctx: SponsoredBurn) -> bool {
        &&& self.outstanding(ctx.target_mint.address) == ctx.target_mint.supply
        &&& self.held(ctx.target_token_account.address) == ctx.target_token_account.amount
    }

    /// The accounts of a sale hold what the ledger says.
    pub open spec fn shows_sell(self, ctx: Sell) -> bool {
        &&& self.outstanding(ctx.market_target_mint.address) == ctx.market_target_mint.supply
        &&& self.held(ctx.seller_target_token_account.address)
            == ctx.seller_target_token_account.amount
        &&& self.held(ctx.market_base_treasury.address) == ctx.market_base_treasury.amount
    }
}

/// An accepted purchase can be carried out, and moves exactly this: the
/// supply and the buyer's holding grow by the amount bought, the treasury
/// grows by the price, and the buyer's paying account shrinks by it.
pub proof fn lemma_buy_effects(ledger: Ledger, ctx: Buy, amount: u64)
    requires
        ctx.plan(amount) is Ok,
        ledger.shows_buy(ctx),
        ctx.buyer_base_token_account.address != ctx.market_base_treasury.address,
        ctx.buyer_target_token_account.address != ctx.market_base_treasury.address,
        ctx.buyer_target_token_account.address != ctx.buyer_base_token_account.address,
    ensures
        ctx.price(amount) is Ok,
        ledger.perform_all(ctx.plan(amount)->Ok_0) is Some,
        ({
            let cost = ctx.price(amount)->Ok_0;
            let after = ledger.perform_all(ctx.plan(amount)->Ok_0)->Some_0;
            &&& after.outstanding(ctx.market_target_mint.address) == ledger.outstanding(
                ctx.market_target_mint.address,
            ) + amount
            &&& after.held(ctx.buyer_target_token_account.address) == ledger.held(
                ctx.buyer_target_token_account.address,
            ) + amount
            &&& after.held(ctx.market_base_treasury.address) == ledger.held(
                ctx.market_base_treasury.address,
            ) + cost
            &&& after.held(ctx.buyer_base_token_account.address) == ledger.held(
                ctx.buyer_base_token_account.address,
            ) - cost
        }),
{
    reveal_with_fuel(Ledger::perform_all, 4);
}

/// An accepted sale can be carried out wherever the seller holds no more
/// than is outstanding, and moves exactly this: the supply and the seller's
/// holding shrink by the amount sold, the treasury shrinks by the price,
/// and the seller's receiving account grows by it.
pub proof fn lemma_sell_effects(ledger: Ledger, ctx: Sell, amount: u64)
    requires
        ctx.plan(amount) is Ok,
        ledger.shows_sell(ctx),
        ctx.seller_target_token_account.amount <= ctx.market_target_mint.supply,
        ctx.seller_base_token_account.address != ctx.market_base_treasury.address,
        ctx.seller_target_token_account.address != ctx.market_base_treasury.address,
        ctx.seller_target_token_account.address != ctx.seller_base_token_account.address,
    ensures
        ctx.price(amount) is Ok,
        ledger.perform_all(ctx.plan(amount)->Ok_0) is Some,
        ({
            let proceeds = ctx.price(amount)->Ok_0;
            let after = ledger.perform_all(ctx.plan(amount)->Ok_0)->Some_0;
            &&& after.outstanding(ctx.market_target_mint.address) == ledger.outstanding(
                ctx.market_target_mint.address,
            ) - amount
            &&& after.held(ctx.seller_target_token_account.address) == ledger.held(
                ctx.seller_target_token_account.address,
            ) - amount
            &&& after.held(ctx.market_base_treasury.address) == ledger.held(
                ctx.market_base_treasury.address,
            ) - proceeds
            &&& after.held(ctx.seller_base_token_account.address) == ledger.held(
                ctx.seller_base_token_account.address,
            ) + proceeds
        }),
{
    reveal_with_fuel(Ledger::perform_all, 3);
}

/// An accepted sponsored burn can be carried out wherever the account
/// holds no more than is outstanding, and moves exactly this: the supply
/// and the holding shrink by the amount burned. No other account changes:
/// nothing is paid out. What leaves the supply enters the market's counter,
/// so the two together are what they were.
pub proof fn lemma_sponsored_burn_effects(
    ledger: Ledger,
    ctx: SponsoredBurn,
    amount: u64,
    other: Address,
)
    requires
        ctx.plan(amount) is Ok,
        ledger.shows_sponsored_burn(ctx),
        ctx.target_token_account.amount <= ctx.target_mint.supply,
        other != ctx.target_token_account.address,
    ensures
        ledger.perform_all(ctx.plan(amount)->Ok_0) is Some,
        ({
            let after = ledger.perform_all(ctx.plan(amount)->Ok_0)->Some_0;
            &&& after.outstanding(ctx.target_mint.address) == ledger.outstanding(
                ctx.target_mint.address,
            ) - amount
            &&& after.held(ctx.target_token_account.address) == ledger.held(
                ctx.target_token_account.address,
            ) - amount
            &&& after.held(other) == ledger.held(other)
            &&& after.outstanding(ctx.target_mint.address) + ctx.counted(
                amount,
            ).market.amount_burned == ledger.outstanding(ctx.target_mint.address)
                + ctx.market.amount_burned
        }),
{
    reveal_with_fuel(Ledger::perform_all, 2);
}

/// After a sponsored burn every purchase and every sale is priced as it
/// was before it. `burn` stands for the accounts before the burn, `before`
/// for those of a purchase and a sale that read the same market and supply,
/// and `after` for those of the same purchase and sale once the burn has
/// been carried out and counted.
pub proof fn lemma_sponsored_burn_keeps_prices(
    burn: SponsoredBurn,
    burned: u64,
    before: (Buy, Sell),
    after: (Buy, Sell),
    amount: u64,
)
    requires
        burn.plan(burned) is Ok,
        burn.target_token_account.amount <= burn.target_mint.supply,
        before.0.market == burn.market,
        before.1.market == burn.market,
        before.0.market_target_mint.supply == burn.target_mint.supply,
        before.1.market_target_mint.supply == burn.target_mint.supply,
        after.0.market == burn.counted(burned).market,
        after.1.market == burn.counted(burned).market,
        after.0.market_target_mint.supply == burn.target_mint.supply - burned,
        after.1.market_target_mint.supply == burn.target_mint.supply - burned,
    ensures
        after.0.price(amount) == before.0.price(amount),
        after.1.price(amount) == before.1.price(amount),
{
}

/// Buying and at once selling the same amount leaves the trader, the
/// treasury and the supply where they were: the sale fetches exactly what
/// the purchase cost. `sell` stands for the accounts as the purchase left
/// them.
pub proof fn lemma_round_trip(ledger: Ledger, buy: Buy, sell: Sell, amount: u64)
    requires
        buy.plan(amount) is Ok,
        ledger.shows_buy(buy),
        buy.buyer_base_token_account.address != buy.market_base_treasury.address,
        buy.buyer_target_token_account.address != buy.market_base_treasury.address,
        buy.buyer_target_token_account.address != buy.buyer_base_token_account.address,
        sell.constraints(),
        sell.market.curve == buy.market.curve,
        sell.market.amount_burned == buy.market.amount_burned,
        sell.market_target_mint.address == buy.market_target_mint.address,
        sell.market_base_treasury.address == buy.market_base_treasury.address,
        sell.seller_base_token_account.address == buy.buyer_base_token_account.address,
        sell.seller_target_token_account.address == buy.buyer_target_token_account.address,
        sell.seller_target_token_account.amount <= sell.market_target_mint.supply,
        ledger.perform_all(buy.plan(amount)->Ok_0) is Some ==> ledger.perform_all(
            buy.plan(amount)->Ok_0,
        )->Some_0.shows_sell(sell),
    ensures
        ledger.perform_all(buy.plan(amount)->Ok_0) is Some,
        sell.plan(amount) is Ok,
        sell.price(amount) == buy.price(amount),
        ledger.perform_all(buy.plan(amount)->Ok_0)->Some_0.perform_all(sell.plan(amount)->Ok_0)
            is Some,
        ({
            let between = ledger.perform_all(buy.plan(amount)->Ok_0)->Some_0;
            let after = between.perform_all(sell.plan(amount)->Ok_0)->Some_0;
            &&& after.held(buy.buyer_base_token_account.address) == ledger.held(
                buy.buyer_base_token_account.address,
            )
            &&& after.held(buy.buyer_target_token_account.address) == ledger.held(
                buy.buyer_target_token_account.address,
            )
            &&& after.held(buy.market_base_treasury.address) == ledger.held(
                buy.market_base_treasury.address,
            )
            &&& after.outstanding(buy.market_target_mint.address) == ledger.outstanding(
                buy.market_target_mint.address,
            )
        }),
{
    lemma_buy_effects(ledger, buy, amount);
    lemma_sell_effects(ledger.perform_all(buy.plan(amount)->Ok_0)->Some_0, sell, amount);
}

/// Selling more than the minted supply is turned down for want of supply,
/// where the accounts are the market's and the seller's.
pub proof fn lemma_sell_beyond_supply(ctx: Sell, amount: u64)
    requires
        ctx.constraints(),
        ctx.market.curve_supply(ctx.market_target_mint.supply) is Ok,
        amount > ctx.market.curve_supply(ctx.market_target_mint.supply)->Ok_0,
    ensures
        ctx.plan(amount) == Err::<Seq<Invocation>, ErrorCode>(ErrorCode::InsufficientSupply),
{
}

/// Selling all that is outstanding is never turned down for want of
/// supply. It is priced from the count of burned units up to the minted
/// supply, which is from zero where no sponsor has burned anything. It is
/// accepted where that price exists, the seller holds all that is
/// outstanding and the treasury holds the price, and nowhere else; and
/// where it is accepted it leaves nothing outstanding and takes exactly
/// that price out of the treasury.
pub proof fn lemma_sell_out(ledger: Ledger, ctx: Sell)
    requires
        ctx.constraints(),
        ledger.shows_sell(ctx),
        ctx.market_target_mint.supply > 0,
        ctx.market.curve_supply(ctx.market_target_mint.supply) is Ok,
        ctx.seller_target_token_account.amount <= ctx.market_target_mint.supply,
        ctx.seller_base_token_account.address != ctx.market_base_treasury.address,
        ctx.seller_target_token_account.address != ctx.market_base_treasury.address,
        ctx.seller_target_token_account.address != ctx.seller_base_token_account.address,
    ensures
        ctx.plan(ctx.market_target_mint.supply) != Err::<Seq<Invocation>, ErrorCode>(
            ErrorCode::InsufficientSupply,
        ),
        ctx.price(ctx.market_target_mint.supply) == checked_area(
            ctx.market.curve,
            ctx.market.amount_burned as nat,
            (ctx.market_target_mint.supply + ctx.market.amount_burned) as nat,
        ),
        ctx.plan(ctx.market_target_mint.supply) is Ok <==> ({
            &&& ctx.price(ctx.market_target_mint.supply) is Ok
            &&& ctx.seller_target_token_account.amount == ctx.market_target_mint.supply
            &&& ctx.market_base_treasury.amount >= ctx.price(ctx.market_target_mint.supply)->Ok_0
        }),
        ctx.plan(ctx.market_target_mint.supply) is Ok ==> ({
            let after = ledger.perform_all(ctx.plan(ctx.market_target_mint.supply)->Ok_0)->Some_0;
            &&& ledger.perform_all(ctx.plan(ctx.market_target_mint.supply)->Ok_0) is Some
            &&& after.outstanding(ctx.market_target_mint.address) == 0
            &&& after.held(ctx.market_base_treasury.address) == ledger.held(
                ctx.market_base_treasury.address,
            ) - ctx.price(ctx.market_target_mint.supply)->Ok_0
        }),
{
    if ctx.plan(ctx.market_target_mint.supply) is Ok {
        lemma_sell_effects(ledger, ctx, ctx.market_target_mint.supply);
    }
}

/// One operation on a market, with its accounts as they were read.
pub enum Operation {
    Buy(Buy, u64),
    Sell(Sell, u64),
    SponsoredBurn(SponsoredBurn, u64),
}

impl Operation {
    /// What the operation asks of the token program, or its refusal.
    pub open spec fn plan(self) -> Result<Seq<Invocation>, ErrorCode> {
        match self {
            Operation::Buy(ctx, amount) => ctx.plan(amount),
            Operation::Sell(ctx, amount) => ctx.plan(amount),
            Operation::SponsoredBurn(ctx, amount) => ctx.plan(amount),
        }
    }

    /// The target asset that the operation is on.
    pub open spec fn target_mint(self) -> Address {
        match self {
            Operation::Buy(ctx, _) => ctx.market_target_mint.address,
            Operation::Sell(ctx, _) => ctx.market_target_mint.address,
            Operation::SponsoredBurn(ctx, _) => ctx.target_mint.address,
        }
    }
}

/// A ledger together with the target units that were bought, sold and
/// burned by sponsors in the operations that went through.
pub struct Tally {
    pub ledger: Ledger,
    pub bought: nat,
    pub sold: nat,
    pub burned: nat,
}

impl Tally {
    /// The tally after one operation. An operation that is refused, or
    /// that the amounts do not allow, changes nothing.
    pub open spec fn step(self, operation: Operation) -> Tally {
        match operation.plan() {
            Err(_) => self,
            Ok(invocations) => match self.ledger.perform_all(invocations) {
                None => self,
                Some(ledger) => match operation {
                    Operation::Buy(_, amount) => Tally {
                        ledger,
                        bought: self.bought + amount as nat,
                        ..self
                    },
                    Operation::Sell(_, amount) => Tally {
                        ledger,
                        sold: self.sold + amount as nat,
                        ..self
                    },
                    Operation::SponsoredBurn(_, amount) => Tally {
                        ledger,
                        burned: self.burned + amount as nat,
                        ..self
                    },
                },
            },
        }
    }

    /// The tally after a sequence of operations, the first first.
    pub open spec fn run(self, operations: Seq<Operation>) -> Tally
        decreases operations.len(),
    {
        if operations.len() == 0 {
            self
        } else {
            self.step(operations[0]).run(operations.drop_first())
        }
    }

    /// The target units that were ever minted and not sold back: what is
    /// outstanding, and what sponsors burned. This is the supply that
    /// purchases and sales are priced from.
    pub open spec fn minted(self, target_mint: Address) -> nat {
        self.ledger.outstanding(target_mint) + self.burned
    }
}

/// One operation on a target asset changes what was minted of it by what
/// it bought or sold. A sponsored burn changes nothing of it: what leaves
/// the supply enters the count of burned units.
pub proof fn lemma_step_keeps_the_books(tally: Tally, operation: Operation)
    ensures
        tally.step(operation).minted(operation.target_mint()) - tally.step(operation).bought
            + tally.step(operation).sold == tally.minted(operation.target_mint()) - tally.bought
            + tally.sold,
        operation is SponsoredBurn ==> tally.step(operation).minted(operation.target_mint())
            == tally.minted(operation.target_mint()),
        tally.step(operation).burned >= tally.burned,
{
    reveal_with_fuel(Ledger::perform_all, 4);
    if let Operation::Buy(ctx, amount) = operation {
        if ctx.plan(amount) is Ok && !ctx.buyer_target_token_account.is_initialized {
            let plan = ctx.plan(amount)->Ok_0;
            assert(plan.drop_first().drop_first().drop_first() =~= Seq::<Invocation>::empty());
        }
    }
}

/// After any sequence of operations on one target asset, what was minted
/// of it has grown by what was bought less what was sold; sponsored burns
/// change nothing of it, and the count of burned units never shrinks.
pub proof fn lemma_run_keeps_the_books(
    tally: Tally,
    operations: Seq<Operation>,
    target_mint: Address,
)
    requires
        forall|i: int| 0 <= i < operations.len() ==> operations[i].target_mint() == target_mint,
    ensures
        tally.run(operations).minted(target_mint) - tally.run(operations).bought + tally.run(
            operations,
        ).sold == tally.minted(target_mint) - tally.bought + tally.sold,
        tally.run(operations).burned >= tally.burned,
    decreases operations.len(),
{
    if operations.len() > 0 {
        lemma_step_keeps_the_books(tally, operations[0]);
        lemma_run_keeps_the_books(tally.step(operations[0]), operations.drop_first(), target_mint);
    }
}

} // verus!
