use bonded_markets::instructions::buy::{handler, total_purchase_price_in_base_tokens, Buy};
use bonded_markets::state::address::Address;
use bonded_markets::state::market::{Curve, Market, Pda};
use bonded_markets::token::{
    CpiContext, Create, Invocation, Mint, MintTo, TokenAccount, Transfer,
};
use bonded_markets::utils::error_code::ErrorCode;
use bonded_markets::utils::seeds::{Seed, SignerSeeds};

fn key(n: u8) -> Address {
    Address { bytes: [n; 32] }
}

const BUYER: u8 = 1;
const BUYER_BASE: u8 = 2;
const BUYER_TARGET: u8 = 3;
const AUTHORITY: u8 = 4;
const TARGET_MINT: u8 = 5;
const BASE_MINT: u8 = 6;
const TREASURY: u8 = 7;
const TOKEN_PROGRAM: u8 = 8;
const ASSOCIATED_TOKEN_PROGRAM: u8 = 9;

fn purchase(supply: u64, funds: u64) -> Buy {
    Buy {
        buyer: key(BUYER),
        buyer_base_token_account: TokenAccount {
            address: key(BUYER_BASE),
            mint: key(BASE_MINT),
            owner: key(BUYER),
            amount: funds,
            is_initialized: true,
        },
        buyer_target_token_account: TokenAccount {
            address: key(BUYER_TARGET),
            mint: key(TARGET_MINT),
            owner: key(BUYER),
            amount: 0,
            is_initialized: true,
        },
        market: Market {
            name: String::from("Moon Base"),
            creator: key(20),
            base_mint: key(BASE_MINT),
            target_mint: key(TARGET_MINT),
            amount_burned: 0,
            base_treasury: Pda { address: key(TREASURY), bump: 254 },
            authority: Pda { address: key(AUTHORITY), bump: 253 },
            curve: Curve::Linear,
            bump: 252,
        },
        market_authority: key(AUTHORITY),
        market_target_mint: Mint { address: key(TARGET_MINT), supply },
        market_base_treasury: TokenAccount {
            address: key(TREASURY),
            mint: key(BASE_MINT),
            owner: key(AUTHORITY),
            amount: 0,
            is_initialized: true,
        },
        token_program: key(TOKEN_PROGRAM),
        associated_token_program: key(ASSOCIATED_TOKEN_PROGRAM),
    }
}

fn payment(amount: u64) -> Invocation {
    Invocation::Transfer(
        CpiContext {
            program: key(TOKEN_PROGRAM),
            accounts: Transfer {
                from: key(BUYER_BASE),
                to: key(TREASURY),
                authority: key(BUYER),
            },
            signer_seeds: None,
        },
        amount,
    )
}

fn minting(amount: u64) -> Invocation {
    Invocation::MintTo(
        CpiContext {
            program: key(TOKEN_PROGRAM),
            accounts: MintTo {
                mint: key(TARGET_MINT),
                to: key(BUYER_TARGET),
                authority: key(AUTHORITY),
            },
            signer_seeds: Some(SignerSeeds {
                seed: Seed::MarketAuthority,
                key: key(TARGET_MINT),
                bump: 253,
            }),
        },
        amount,
    )
}

#[test]
fn purchase_price_is_the_area_above_the_supply() {
    assert_eq!(total_purchase_price_in_base_tokens(Curve::Linear, 0, 1_000_000), Ok(5000));
    assert_eq!(
        total_purchase_price_in_base_tokens(Curve::Linear, 1_000_000, 2_000_000),
        Ok(40_000)
    );
    assert_eq!(total_purchase_price_in_base_tokens(Curve::Linear, 1_000_000, 0), Ok(0));
}

#[test]
fn purchase_price_of_a_thousand_units_from_nothing() {
    // (1000^2 / 2 - 0) / 1e8
    let direct = ((1000u128 * 1000 / 2 - 0) / 100_000_000) as u64;
    assert_eq!(direct, 0);
    assert_eq!(total_purchase_price_in_base_tokens(Curve::Linear, 0, 1000), Ok(direct));
}

#[test]
fn purchase_price_reports_a_supply_that_does_not_fit() {
    assert_eq!(
        total_purchase_price_in_base_tokens(Curve::Linear, u64::MAX, 1),
        Err(ErrorCode::SupplyOverflow)
    );
    assert_eq!(
        total_purchase_price_in_base_tokens(Curve::Linear, 1 << 63, 1 << 63),
        Err(ErrorCode::SupplyOverflow)
    );
    assert_eq!(
        total_purchase_price_in_base_tokens(Curve::Quadratic, u64::MAX, 1),
        Err(ErrorCode::SupplyOverflow)
    );
}

#[test]
fn purchase_price_reports_a_price_that_does_not_fit() {
    assert_eq!(
        total_purchase_price_in_base_tokens(Curve::Linear, 0, u64::MAX),
        Err(ErrorCode::CurveOverflow)
    );
}

#[test]
fn purchase_price_on_the_quadratic_curve_is_not_implemented() {
    assert_eq!(
        total_purchase_price_in_base_tokens(Curve::Quadratic, 0, 10),
        Err(ErrorCode::NotImplemented)
    );
}

#[test]
fn buy_pays_first_and_mints_second() {
    let ctx = purchase(1_000_000, 40_000);
    assert_eq!(handler(&ctx, 2_000_000), Ok(vec![payment(40_000), minting(2_000_000)]));
}

#[test]
fn buy_of_nothing_is_refused() {
    let ctx = purchase(1_000_000, 40_000);
    assert_eq!(handler(&ctx, 0), Err(ErrorCode::ZeroAmount));
    let ctx = purchase(0, 0);
    assert_eq!(handler(&ctx, 0), Err(ErrorCode::ZeroAmount));
    // nothing is created for a purchase of nothing either
    let mut ctx = purchase(0, 5000);
    ctx.buyer_target_token_account.is_initialized = false;
    assert_eq!(handler(&ctx, 0), Err(ErrorCode::ZeroAmount));
    // one unit is a purchase
    let ctx = purchase(0, 0);
    assert_eq!(handler(&ctx, 1), Ok(vec![payment(0), minting(1)]));
}

#[test]
fn buy_is_priced_from_the_minted_supply() {
    // 2_000_000 outstanding and 1_000_000 burned by sponsors: 3_000_000 minted,
    // (4_000_000^2 / 2 - 3_000_000^2 / 2) / 1e8 = 35_000
    let mut ctx = purchase(2_000_000, 35_000);
    ctx.market.amount_burned = 1_000_000;
    assert_eq!(handler(&ctx, 1_000_000), Ok(vec![payment(35_000), minting(1_000_000)]));
    // not from what is outstanding, which would give 25_000
    let mut ctx = purchase(2_000_000, 34_999);
    ctx.market.amount_burned = 1_000_000;
    assert_eq!(handler(&ctx, 1_000_000), Err(ErrorCode::InsufficientFunds));
    // the same purchase before the burn, at 3_000_000 outstanding
    let ctx = purchase(3_000_000, 35_000);
    assert_eq!(handler(&ctx, 1_000_000), Ok(vec![payment(35_000), minting(1_000_000)]));
}

#[test]
fn buy_at_a_minted_supply_beyond_the_amount_width_is_refused() {
    let mut ctx = purchase(u64::MAX - 5, u64::MAX);
    ctx.market.amount_burned = 6;
    assert_eq!(handler(&ctx, 1), Err(ErrorCode::SupplyOverflow));
    let mut ctx = purchase(u64::MAX - 5, u64::MAX);
    ctx.market.amount_burned = 5;
    assert_eq!(handler(&ctx, 1), Err(ErrorCode::SupplyOverflow));
    let mut ctx = purchase(10, u64::MAX);
    ctx.market.amount_burned = u64::MAX - 10;
    assert_eq!(handler(&ctx, 1), Err(ErrorCode::SupplyOverflow));
    // one unit below the width there is a supply again, and a price:
    // ((2^64 - 1)^2 / 2 - (2^64 - 2)^2 / 2) / 1e8
    ctx.market.amount_burned = u64::MAX - 11;
    assert_eq!(handler(&ctx, 1), Ok(vec![payment(184_467_440_737), minting(1)]));
}

#[test]
fn buy_creates_the_receiving_account_where_there_is_none() {
    let mut ctx = purchase(0, 5000);
    ctx.buyer_target_token_account = TokenAccount {
        address: key(BUYER_TARGET),
        mint: key(0),
        owner: key(0),
        amount: 0,
        is_initialized: false,
    };
    let creation = Invocation::Create(CpiContext {
        program: key(ASSOCIATED_TOKEN_PROGRAM),
        accounts: Create {
            payer: key(BUYER),
            associated_token: key(BUYER_TARGET),
            authority: key(BUYER),
            mint: key(TARGET_MINT),
        },
        signer_seeds: None,
    });
    assert_eq!(handler(&ctx, 1_000_000), Ok(vec![creation, payment(5000), minting(1_000_000)]));
}

#[test]
fn buy_without_the_funds_is_refused() {
    let ctx = purchase(1_000_000, 39_999);
    assert_eq!(handler(&ctx, 2_000_000), Err(ErrorCode::InsufficientFunds));
}

#[test]
fn buy_beyond_the_amount_width_is_refused() {
    let ctx = purchase(u64::MAX - 5, u64::MAX);
    assert_eq!(handler(&ctx, 6), Err(ErrorCode::SupplyOverflow));
}

#[test]
fn buy_at_a_price_beyond_the_amount_width_is_refused() {
    let ctx = purchase(0, u64::MAX);
    assert_eq!(handler(&ctx, u64::MAX), Err(ErrorCode::CurveOverflow));
}

#[test]
fn buy_on_the_quadratic_curve_is_refused() {
    let mut ctx = purchase(0, u64::MAX);
    ctx.market.curve = Curve::Quadratic;
    assert_eq!(handler(&ctx, 10), Err(ErrorCode::NotImplemented));
}

#[test]
fn buy_into_an_account_of_another_owner_is_refused() {
    let mut ctx = purchase(0, 5000);
    ctx.buyer_target_token_account.owner = key(99);
    assert_eq!(handler(&ctx, 1_000_000), Err(ErrorCode::Unauthorized));
}

#[test]
fn buy_into_an_account_of_another_asset_is_refused() {
    let mut ctx = purchase(0, 5000);
    ctx.buyer_target_token_account.mint = key(BASE_MINT);
    assert_eq!(handler(&ctx, 1_000_000), Err(ErrorCode::Unauthorized));
}

#[test]
fn buy_with_accounts_of_another_market_is_refused() {
    let mut ctx = purchase(0, 5000);
    ctx.market_target_mint.address = key(99);
    ctx.buyer_target_token_account.mint = key(99);
    assert_eq!(handler(&ctx, 1_000_000), Err(ErrorCode::Unauthorized));

    let mut ctx = purchase(0, 5000);
    ctx.market_authority = key(99);
    assert_eq!(handler(&ctx, 1_000_000), Err(ErrorCode::Unauthorized));

    let mut ctx = purchase(0, 5000);
    ctx.market_base_treasury.address = key(99);
    assert_eq!(handler(&ctx, 1_000_000), Err(ErrorCode::Unauthorized));
}

#[test]
fn buy_from_or_into_a_missing_account_is_refused() {
    let mut ctx = purchase(0, 5000);
    ctx.buyer_base_token_account.is_initialized = false;
    assert_eq!(handler(&ctx, 1_000_000), Err(ErrorCode::Unauthorized));

    let mut ctx = purchase(0, 5000);
    ctx.market_base_treasury.is_initialized = false;
    assert_eq!(handler(&ctx, 1_000_000), Err(ErrorCode::Unauthorized));
}

#[test]
fn buy_checks_its_accounts_before_anything_else() {
    let mut ctx = purchase(u64::MAX, 0);
    ctx.market.curve = Curve::Quadratic;
    ctx.market_authority = key(99);
    assert_eq!(handler(&ctx, 1), Err(ErrorCode::Unauthorized));
    assert_eq!(handler(&ctx, 0), Err(ErrorCode::Unauthorized));
    assert!(!ctx.check_constraints());
    assert!(purchase(0, 0).check_constraints());
    // and the amount before the price
    let mut ctx = purchase(u64::MAX, 0);
    ctx.market.curve = Curve::Quadratic;
    assert_eq!(handler(&ctx, 0), Err(ErrorCode::ZeroAmount));
}

#[test]
fn buy_requests_name_the_accounts_of_the_purchase() {
    let ctx = purchase(0, 0);
    assert_eq!(
        ctx.into_receive_base_tokens_from_buyer_context(),
        CpiContext {
            program: key(TOKEN_PROGRAM),
            accounts: Transfer {
                from: key(BUYER_BASE),
                to: key(TREASURY),
                authority: key(BUYER),
            },
            signer_seeds: None,
        }
    );
    assert_eq!(
        ctx.into_mint_target_tokens_to_buyer_context(),
        CpiContext {
            program: key(TOKEN_PROGRAM),
            accounts: MintTo {
                mint: key(TARGET_MINT),
                to: key(BUYER_TARGET),
                authority: key(AUTHORITY),
            },
            signer_seeds: None,
        }
    );
    assert_eq!(
        ctx.into_create_target_token_account_context(),
        CpiContext {
            program: key(ASSOCIATED_TOKEN_PROGRAM),
            accounts: Create {
                payer: key(BUYER),
                associated_token: key(BUYER_TARGET),
                authority: key(BUYER),
                mint: key(TARGET_MINT),
            },
            signer_seeds: None,
        }
    );
}

#[test]
fn a_request_signed_with_seeds_keeps_its_accounts() {
    let seeds = SignerSeeds { seed: Seed::BaseTreasury, key: key(TARGET_MINT), bump: 7 };
    let accounts = Transfer { from: key(1), to: key(2), authority: key(3) };
    let plain = CpiContext::new(key(TOKEN_PROGRAM), accounts);
    assert_eq!(plain, CpiContext { program: key(TOKEN_PROGRAM), accounts, signer_seeds: None });
    assert_eq!(
        plain.with_signer(seeds),
        CpiContext { program: key(TOKEN_PROGRAM), accounts, signer_seeds: Some(seeds) }
    );
    assert_eq!(plain.clone(), plain);
}
