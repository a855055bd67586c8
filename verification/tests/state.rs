use bonded_markets::state::address::Address;
use bonded_markets::state::market::{Curve, Market, MarketAttribution, Pda};
use bonded_markets::utils::error_code::ErrorCode;
use bonded_markets::utils::seed_format::to_seed_format;
use bonded_markets::utils::seeds::{check_bump, Seed, SignerSeeds};

#[test]
fn curve_selectors() {
    assert_eq!(Curve::from(0), Some(Curve::Linear));
    assert_eq!(Curve::from(1), Some(Curve::Quadratic));
    assert_eq!(Curve::from(2), None);
    assert_eq!(Curve::from(255), None);
}

#[test]
fn default_curve_is_linear() {
    assert_eq!(Curve::default(), Curve::Linear);
}

#[test]
fn default_records_are_empty() {
    let zero = Address { bytes: [0u8; 32] };
    assert_eq!(Address::default(), zero);
    assert_eq!(Pda::default(), Pda { address: zero, bump: 0 });
    let market = Market::default();
    assert_eq!(
        market,
        Market {
            name: String::new(),
            creator: zero,
            base_mint: zero,
            target_mint: zero,
            amount_burned: 0,
            base_treasury: Pda { address: zero, bump: 0 },
            authority: Pda { address: zero, bump: 0 },
            curve: Curve::Linear,
            bump: 0,
        }
    );
}

#[test]
fn records_clone_to_equal_records() {
    let market = Market {
        name: String::from("Moon Base"),
        creator: Address { bytes: [1u8; 32] },
        base_mint: Address { bytes: [2u8; 32] },
        target_mint: Address { bytes: [3u8; 32] },
        amount_burned: 17,
        base_treasury: Pda { address: Address { bytes: [4u8; 32] }, bump: 254 },
        authority: Pda { address: Address { bytes: [5u8; 32] }, bump: 253 },
        curve: Curve::Quadratic,
        bump: 252,
    };
    assert_eq!(market.clone(), market);
    let attribution =
        MarketAttribution { name: b"moonbase".to_vec(), target_mint: Address { bytes: [3u8; 32] } };
    assert_eq!(attribution.clone(), attribution);
}

#[test]
fn addresses_compare_by_their_bytes() {
    let a = Address { bytes: [7u8; 32] };
    let mut other = [7u8; 32];
    assert!(a.equals(&Address { bytes: other }));
    other[31] = 8;
    assert!(!a.equals(&Address { bytes: other }));
    other[31] = 7;
    other[0] = 0;
    assert!(!a.equals(&Address { bytes: other }));
}

#[test]
fn address_bytes_come_out_in_order() {
    let mut bytes = [0u8; 32];
    for (i, b) in bytes.iter_mut().enumerate() {
        *b = i as u8;
    }
    assert_eq!(Address { bytes }.to_vec(), bytes.to_vec());
}

#[test]
fn seeds_are_their_ascii_names() {
    assert_eq!(Seed::Market.to_vec(), b"market".to_vec());
    assert_eq!(Seed::MarketAttribution.to_vec(), b"attribution".to_vec());
    assert_eq!(Seed::BaseTreasury.to_vec(), b"base_treasury".to_vec());
    assert_eq!(Seed::MarketAuthority.to_vec(), b"market_auth".to_vec());
}

#[test]
fn a_market_signs_with_its_tag_its_target_asset_and_its_bump() {
    let mut market = Market::default();
    market.target_mint = Address { bytes: [3u8; 32] };
    market.authority = Pda { address: Address { bytes: [5u8; 32] }, bump: 250 };
    market.bump = 1;
    market.base_treasury.bump = 2;
    assert_eq!(
        market.authority_seeds(),
        SignerSeeds { seed: Seed::MarketAuthority, key: Address { bytes: [3u8; 32] }, bump: 250 }
    );
    assert_eq!(
        market.authority_seeds().to_vec(),
        vec![b"market_auth".to_vec(), vec![3u8; 32], vec![250u8]]
    );
}

#[test]
fn the_curve_supply_is_what_is_outstanding_and_what_was_burned() {
    let mut market = Market::default();
    assert_eq!(market.minted_supply(0), Ok(0));
    assert_eq!(market.minted_supply(2_000_000), Ok(2_000_000));
    market.amount_burned = 1_000_000;
    assert_eq!(market.minted_supply(2_000_000), Ok(3_000_000));
    assert_eq!(market.minted_supply(0), Ok(1_000_000));
    assert_eq!(market.minted_supply(u64::MAX - 1_000_000), Ok(u64::MAX));
    assert_eq!(market.minted_supply(u64::MAX - 999_999), Err(ErrorCode::SupplyOverflow));
    assert_eq!(market.minted_supply(u64::MAX), Err(ErrorCode::SupplyOverflow));
}

#[test]
fn a_bump_is_held_against_the_derived_one() {
    assert_eq!(check_bump(254, Some(254)), Ok(()));
    assert_eq!(check_bump(0, Some(0)), Ok(()));
    assert_eq!(check_bump(254, Some(255)), Err(ErrorCode::Unauthorized));
    assert_eq!(check_bump(0, Some(1)), Err(ErrorCode::Unauthorized));
    assert_eq!(check_bump(254, None), Err(ErrorCode::Unauthorized));
}

#[test]
fn signer_seeds_are_tag_key_and_bump() {
    let key = Address { bytes: [9u8; 32] };
    let seeds = SignerSeeds { seed: Seed::MarketAuthority, key, bump: 251 };
    assert_eq!(seeds.to_vec(), vec![b"market_auth".to_vec(), vec![9u8; 32], vec![251u8]]);
}

#[test]
fn seed_format_drops_white_space_and_capitals() {
    assert_eq!(to_seed_format("Moon Base"), b"moonbase".to_vec());
    assert_eq!(to_seed_format("  MOON\tbase\r\n"), b"moonbase".to_vec());
    assert_eq!(to_seed_format("moonbase"), b"moonbase".to_vec());
    assert_eq!(to_seed_format(""), Vec::<u8>::new());
    assert_eq!(to_seed_format(" \t\n\x0b\x0c\r"), Vec::<u8>::new());
}

#[test]
fn seed_format_keeps_every_other_byte() {
    assert_eq!(to_seed_format("A-Z_09@[`{"), b"a-z_09@[`{".to_vec());
    // bytes outside ASCII are left alone
    assert_eq!(to_seed_format("Caf\u{e9} \u{c9}"), "caf\u{e9}\u{c9}".as_bytes().to_vec());
}

#[test]
fn seed_format_of_a_seed_format_is_itself() {
    for name in ["Moon Base", "a b c", "ALL CAPS", "tabs\tand\nlines", "plain"] {
        let once = to_seed_format(name);
        let again = to_seed_format(std::str::from_utf8(&once).unwrap());
        assert_eq!(once, again);
    }
}
