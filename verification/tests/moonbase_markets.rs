use bonded_markets::moonbase_markets::{
    buy_tokens, new_market, BuyTokens, Market, NewMarket, Pda, LAMPORTS_PER_TOKEN,
    TARGET_DECIMALS,
};
use bonded_markets::state::address::Address;
use bonded_markets::token::{
    CpiContext, Create, InitializeMint, Invocation, Mint, MintTo, TokenAccount, TransferLamports,
};
use bonded_markets::utils::error_code::ErrorCode;
use bonded_markets::utils::seeds::{Seed, SignerSeeds};

fn pk(n: u8) -> Address {
    Address { bytes: [n; 32] }
}

fn fixed_price_purchase() -> BuyTokens {
    BuyTokens {
        buyer: pk(1),
        buyer_token_account: TokenAccount {
            address: pk(3),
            mint: pk(5),
            owner: pk(1),
            amount: 0,
            is_initialized: true,
        },
        market: Market {
            name: String::from("Moon Base"),
            creator: pk(20),
            target_mint: pk(5),
            authority: Pda { address: pk(4), bump: 253 },
            treasury: Pda { address: pk(7), bump: 254 },
            bump: 252,
        },
        market_target_mint: Mint { address: pk(5), supply: 0 },
        market_authority: pk(4),
        market_treasury: pk(7),
        associated_token_program: pk(9),
        token_program: pk(8),
        system_program: pk(10),
    }
}

fn lamports(amount: u64) -> Invocation {
    Invocation::TransferLamports(
        CpiContext {
            program: pk(10),
            accounts: TransferLamports { from: pk(1), to: pk(7) },
            signer_seeds: None,
        },
        amount,
    )
}

fn tokens(amount: u64) -> Invocation {
    Invocation::MintTo(
        CpiContext {
            program: pk(8),
            accounts: MintTo { mint: pk(5), to: pk(3), authority: pk(4) },
            signer_seeds: Some(SignerSeeds { seed: Seed::MarketAuthority, key: pk(5), bump: 253 }),
        },
        amount,
    )
}

#[test]
fn fixed_price_is_two_lamports_for_whole_units() {
    assert_eq!(LAMPORTS_PER_TOKEN, 2);
    assert_eq!(TARGET_DECIMALS, 0);
    assert_eq!(Seed::Treasury.to_vec(), b"treasury".to_vec());
}

#[test]
fn fixed_price_market_default_is_empty() {
    let zero = pk(0);
    assert_eq!(
        Market::default(),
        Market {
            name: String::new(),
            creator: zero,
            target_mint: zero,
            authority: Pda { address: zero, bump: 0 },
            treasury: Pda { address: zero, bump: 0 },
            bump: 0,
        }
    );
    let market = fixed_price_purchase().market;
    assert_eq!(market.clone(), market);
    assert_eq!(
        market.authority_seeds(),
        SignerSeeds { seed: Seed::MarketAuthority, key: pk(5), bump: 253 }
    );
}

#[test]
fn fixed_price_creation_writes_the_record() {
    let mut ctx = NewMarket {
        payer: pk(11),
        creator: pk(20),
        market: Market::default(),
        target_mint: pk(5),
        market_authority: pk(4),
        market_treasury: pk(7),
        token_program: pk(8),
    };
    let requests = new_market(&mut ctx, 252, 253, 254, String::from("Moon Base"));
    assert_eq!(
        requests,
        vec![Invocation::InitializeMint(
            CpiContext {
                program: pk(8),
                accounts: InitializeMint { mint: pk(5), payer: pk(11) },
                signer_seeds: None,
            },
            0,
            pk(4),
        )]
    );
    assert_eq!(
        ctx,
        NewMarket {
            payer: pk(11),
            creator: pk(20),
            market: fixed_price_purchase().market,
            target_mint: pk(5),
            market_authority: pk(4),
            market_treasury: pk(7),
            token_program: pk(8),
        }
    );
}

#[test]
fn buy_tokens_pays_two_lamports_a_unit_and_then_mints() {
    let ctx = fixed_price_purchase();
    assert_eq!(buy_tokens(&ctx, 21), Ok(vec![lamports(42), tokens(21)]));
    assert_eq!(buy_tokens(&ctx, 1), Ok(vec![lamports(2), tokens(1)]));
    assert_eq!(
        buy_tokens(&ctx, u64::MAX / 2),
        Ok(vec![lamports(u64::MAX - 1), tokens(u64::MAX / 2)])
    );
}

#[test]
fn buy_tokens_of_nothing_is_refused() {
    let mut ctx = fixed_price_purchase();
    assert_eq!(buy_tokens(&ctx, 0), Err(ErrorCode::ZeroAmount));
    ctx.buyer_token_account.is_initialized = false;
    assert_eq!(buy_tokens(&ctx, 0), Err(ErrorCode::ZeroAmount));
}

#[test]
fn buy_tokens_at_a_price_beyond_the_amount_width_is_refused() {
    let ctx = fixed_price_purchase();
    assert_eq!(buy_tokens(&ctx, u64::MAX / 2 + 1), Err(ErrorCode::CurveOverflow));
    assert_eq!(buy_tokens(&ctx, u64::MAX), Err(ErrorCode::CurveOverflow));
}

#[test]
fn buy_tokens_creates_the_receiving_account_where_there_is_none() {
    let mut ctx = fixed_price_purchase();
    ctx.buyer_token_account.is_initialized = false;
    ctx.buyer_token_account.owner = pk(0);
    ctx.buyer_token_account.mint = pk(0);
    let creation = Invocation::Create(CpiContext {
        program: pk(9),
        accounts: Create { payer: pk(1), associated_token: pk(3), authority: pk(1), mint: pk(5) },
        signer_seeds: None,
    });
    assert_eq!(buy_tokens(&ctx, 21), Ok(vec![creation, lamports(42), tokens(21)]));
}

#[test]
fn buy_tokens_with_accounts_of_another_market_is_refused() {
    let mut ctx = fixed_price_purchase();
    ctx.buyer_token_account.owner = pk(99);
    assert_eq!(buy_tokens(&ctx, 21), Err(ErrorCode::Unauthorized));

    let mut ctx = fixed_price_purchase();
    ctx.buyer_token_account.mint = pk(99);
    assert_eq!(buy_tokens(&ctx, 21), Err(ErrorCode::Unauthorized));

    let mut ctx = fixed_price_purchase();
    ctx.market_target_mint.address = pk(99);
    assert_eq!(buy_tokens(&ctx, 21), Err(ErrorCode::Unauthorized));

    let mut ctx = fixed_price_purchase();
    ctx.market_authority = pk(99);
    assert_eq!(buy_tokens(&ctx, 21), Err(ErrorCode::Unauthorized));

    let mut ctx = fixed_price_purchase();
    ctx.market_treasury = pk(99);
    assert_eq!(buy_tokens(&ctx, u64::MAX), Err(ErrorCode::Unauthorized));
    assert!(!ctx.check_constraints());
}

#[test]
fn buy_tokens_requests_name_the_accounts_of_the_purchase() {
    let ctx = fixed_price_purchase();
    assert_eq!(
        ctx.into_receive_lamports_from_buyer_context(),
        CpiContext {
            program: pk(10),
            accounts: TransferLamports { from: pk(1), to: pk(7) },
            signer_seeds: None,
        }
    );
    assert_eq!(
        ctx.into_mint_tokens_to_buyer_context(),
        CpiContext {
            program: pk(8),
            accounts: MintTo { mint: pk(5), to: pk(3), authority: pk(4) },
            signer_seeds: None,
        }
    );
    assert_eq!(
        ctx.into_create_token_account_context(),
        CpiContext {
            program: pk(9),
            accounts: Create {
                payer: pk(1),
                associated_token: pk(3),
                authority: pk(1),
                mint: pk(5),
            },
            signer_seeds: None,
        }
    );
}
