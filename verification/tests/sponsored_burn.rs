use bonded_markets::instructions::sponsored_burn::{handler, SponsoredBurn};
use bonded_markets::state::address::Address;
use bonded_markets::state::market::{Curve, Market, Pda};
use bonded_markets::token::{Burn, CpiContext, Invocation, Mint, TokenAccount};
use bonded_markets::utils::error_code::ErrorCode;

fn addr(n: u8) -> Address {
    Address { bytes: [n; 32] }
}

fn burn_of(holding: u64, already_burned: u64) -> SponsoredBurn {
    SponsoredBurn {
        sponsor: addr(1),
        target_token_account: TokenAccount {
            address: addr(3),
            mint: addr(5),
            owner: addr(1),
            amount: holding,
            is_initialized: true,
        },
        target_mint: Mint { address: addr(5), supply: 1_000_000 },
        market: Market {
            name: String::from("Moon Base"),
            creator: addr(20),
            base_mint: addr(6),
            target_mint: addr(5),
            amount_burned: already_burned,
            base_treasury: Pda { address: addr(7), bump: 254 },
            authority: Pda { address: addr(4), bump: 253 },
            curve: Curve::Linear,
            bump: 252,
        },
        token_program: addr(8),
    }
}

fn the_burn(amount: u64) -> Invocation {
    Invocation::Burn(
        CpiContext {
            program: addr(8),
            accounts: Burn { mint: addr(5), from: addr(3), authority: addr(1) },
            signer_seeds: None,
        },
        amount,
    )
}

#[test]
fn sponsored_burn_counts_what_it_burns() {
    let mut ctx = burn_of(500, 17);
    assert_eq!(handler(&mut ctx, 300), Ok(vec![the_burn(300)]));
    let mut expected = burn_of(500, 317);
    assert_eq!(ctx, expected);
    // the account was read before the burn: it is for the caller to read it again
    expected.target_token_account.amount = 500;
    assert_eq!(ctx.target_token_account, expected.target_token_account);
}

#[test]
fn sponsored_burns_add_up() {
    let mut ctx = burn_of(1000, 0);
    let mut total = 0u64;
    for amount in [1u64, 12, 250, 30, 7] {
        let before = ctx.market.amount_burned;
        assert_eq!(handler(&mut ctx, amount), Ok(vec![the_burn(amount)]));
        assert_eq!(ctx.market.amount_burned, before + amount);
        assert!(ctx.market.amount_burned >= before);
        total += amount;
    }
    assert_eq!(ctx.market.amount_burned, total);
}

#[test]
fn sponsored_burn_of_nothing_is_refused() {
    let mut ctx = burn_of(500, 17);
    assert_eq!(handler(&mut ctx, 0), Err(ErrorCode::ZeroAmount));
    assert_eq!(ctx, burn_of(500, 17));
    let mut ctx = burn_of(0, u64::MAX);
    assert_eq!(handler(&mut ctx, 0), Err(ErrorCode::ZeroAmount));
    assert_eq!(ctx, burn_of(0, u64::MAX));
}

#[test]
fn sponsored_burn_asks_for_no_payment() {
    let mut ctx = burn_of(500, 0);
    let requests = handler(&mut ctx, 500).unwrap();
    assert_eq!(requests.len(), 1);
    assert!(matches!(requests[0], Invocation::Burn(_, 500)));
}

#[test]
fn sponsored_burn_of_more_than_is_held_is_refused() {
    let mut ctx = burn_of(500, 17);
    assert_eq!(handler(&mut ctx, 501), Err(ErrorCode::InsufficientBalance));
    assert_eq!(ctx, burn_of(500, 17));
}

#[test]
fn sponsored_burn_that_overflows_the_counter_is_refused() {
    let mut ctx = burn_of(500, u64::MAX - 299);
    assert_eq!(handler(&mut ctx, 300), Err(ErrorCode::BurnCounterOverflow));
    assert_eq!(ctx, burn_of(500, u64::MAX - 299));
    assert_eq!(handler(&mut ctx, 299), Ok(vec![the_burn(299)]));
    assert_eq!(ctx.market.amount_burned, u64::MAX);
}

#[test]
fn sponsored_burn_of_another_asset_is_refused() {
    let mut ctx = burn_of(500, 17);
    ctx.target_mint.address = addr(99);
    let before = burn_of(500, 17).market;
    assert_eq!(handler(&mut ctx, 300), Err(ErrorCode::Unauthorized));
    assert_eq!(ctx.market, before);
    assert!(!ctx.check_constraints());
}

#[test]
fn sponsored_burn_from_a_missing_account_is_refused() {
    let mut ctx = burn_of(0, 17);
    ctx.target_token_account.is_initialized = false;
    assert_eq!(handler(&mut ctx, 0), Err(ErrorCode::Unauthorized));
    assert_eq!(ctx.market.amount_burned, 17);
}

#[test]
fn sponsored_burn_request_names_the_sponsor() {
    let ctx = burn_of(500, 17);
    assert_eq!(
        ctx.into_burn_sponsor_tokens_context(),
        CpiContext {
            program: addr(8),
            accounts: Burn { mint: addr(5), from: addr(3), authority: addr(1) },
            signer_seeds: None,
        }
    );
}
