use crowd_estate::{
    close_property, create_property, distribute_dividends, mint_additional_tokens,
    update_property, ErrorKind, Errors, Identity, LedgerAction, Property,
};

fn id(b: u8) -> Identity {
    Identity::new([b; 32])
}

fn sample() -> Property {
    let (p, _) = create_property(id(1), id(9), "Ocean View", 1000, 10, "OVW", 254).unwrap();
    p
}

#[test]
fn create_sets_supply_and_mints_it() {
    let (p, actions) = create_property(id(1), id(9), "Ocean View", 1000, 10, "OVW", 254).unwrap();
    assert_eq!(p.admin, id(1));
    assert_eq!(p.mint, id(9));
    assert_eq!(p.property_name, b"Ocean View".to_vec());
    assert_eq!(p.token_symbol, b"OVW".to_vec());
    assert_eq!(p.total_tokens, 1000);
    assert_eq!(p.available_tokens, 1000);
    assert_eq!(p.token_price_usdc, 10);
    assert_eq!(p.dividends_total, 0);
    assert_eq!(p.bump, 254);
    assert!(!p.is_closed);
    assert_eq!(actions, vec![LedgerAction::MintUnits { amount: 1000 }]);
}

#[test]
fn create_rejects_bad_inputs() {
    let r = |n: &str, t: u64, pr: u64, s: &str| {
        create_property(id(1), id(9), n, t, pr, s, 0).map(|_| ()).unwrap_err()
    };
    assert_eq!(r("A", 0, 10, "ABC"), Errors::InvalidTotalTokens);
    assert_eq!(r("A", 10, 0, "ABC"), Errors::InvalidTokenPrice);
    assert_eq!(r("", 10, 10, "ABC"), Errors::InvalidPropertyName);
    assert_eq!(r(&"x".repeat(33), 10, 10, "ABC"), Errors::InvalidPropertyName);
    assert_eq!(r("A", 10, 10, ""), Errors::InvalidTokenSymbol);
    assert_eq!(r("A", 10, 10, "ABCD"), Errors::InvalidTokenSymbol);
    assert!(create_property(id(1), id(9), &"x".repeat(32), 10, 10, "A", 0).is_ok());
    assert_eq!(Errors::InvalidTokenSymbol.kind(), ErrorKind::Validation);
}

#[test]
fn mint_additional_grows_both_counts() {
    let mut p = sample();
    let actions = mint_additional_tokens(&id(1), &mut p, 50).unwrap();
    assert_eq!(actions, vec![LedgerAction::MintUnits { amount: 50 }]);
    assert_eq!(p.total_tokens, 1050);
    assert_eq!(p.available_tokens, 1050);
}

#[test]
fn mint_additional_refuses_strangers_and_overflow() {
    let mut p = sample();
    assert_eq!(mint_additional_tokens(&id(2), &mut p, 50), Err(Errors::Unauthorized));
    assert_eq!(mint_additional_tokens(&id(1), &mut p, u64::MAX), Err(Errors::OverflowError));
    assert_eq!(Errors::OverflowError.kind(), ErrorKind::Arithmetic);
    assert_eq!(p.total_tokens, 1000);
    assert_eq!(p.available_tokens, 1000);
}

#[test]
fn update_allows_longer_symbol_than_creation() {
    let mut p = sample();
    assert_eq!(update_property(&mut p, "Sea View", "SEAVIEW8"), Ok(()));
    assert_eq!(p.property_name, b"Sea View".to_vec());
    assert_eq!(p.token_symbol, b"SEAVIEW8".to_vec());
    assert_eq!(p.token_price_usdc, 10);
    assert_eq!(update_property(&mut p, "Sea View", "SEAVIEW89"), Err(Errors::InvalidTokenSymbol));
    assert_eq!(update_property(&mut p, "", "S"), Err(Errors::InvalidPropertyName));
    assert_eq!(p.token_symbol, b"SEAVIEW8".to_vec());
}

#[test]
fn dividends_are_declared_by_the_admin_only() {
    let mut p = sample();
    assert_eq!(distribute_dividends(&id(2), &mut p, 100), Err(Errors::Unauthorized));
    assert_eq!(Errors::Unauthorized.kind(), ErrorKind::Unauthorized);
    assert_eq!(distribute_dividends(&id(1), &mut p, 100), Ok(()));
    assert_eq!(distribute_dividends(&id(1), &mut p, 50), Ok(()));
    assert_eq!(p.dividends_total, 150);
    assert_eq!(distribute_dividends(&id(1), &mut p, u64::MAX), Err(Errors::OverflowError));
    assert_eq!(p.dividends_total, 150);
}

#[test]
fn close_twice_fails_the_second_time() {
    let mut p = sample();
    assert_eq!(close_property(&id(2), &mut p), Err(Errors::Unauthorized));
    let actions = close_property(&id(1), &mut p).unwrap();
    assert_eq!(actions, vec![LedgerAction::BurnUnits { amount: 1000 }]);
    assert!(p.is_closed);
    assert_eq!(close_property(&id(1), &mut p), Err(Errors::PropertyClosed));
    assert_eq!(Errors::PropertyClosed.kind(), ErrorKind::StateConflict);
}

#[test]
fn well_formedness_checks_supply_and_price() {
    let mut p = sample();
    assert!(p.is_well_formed());
    p.available_tokens = 1001;
    assert!(!p.is_well_formed());
    p.available_tokens = 1000;
    p.token_price_usdc = 0;
    assert!(!p.is_well_formed());
}

#[test]
fn identities_compare_by_bytes() {
    let mut bytes = [1u8; 32];
    assert!(id(1).same_as(&Identity::new(bytes)));
    bytes[31] = 2;
    assert!(!id(1).same_as(&Identity::new(bytes)));
}
