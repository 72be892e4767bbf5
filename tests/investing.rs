use crowd_estate::{
    create_property, distribute_dividends, invest_in_property, mint_additional_tokens,
    redeem_dividends, withdraw_investment, ErrorKind, Errors, Holder, Identity, Investor,
    LedgerAction, Property, Token,
};

fn id(b: u8) -> Identity {
    Identity::new([b; 32])
}

fn property(total: u64, price: u64) -> Property {
    create_property(id(1), id(9), "Harbor Lofts", total, price, "HL", 7).unwrap().0
}

#[test]
fn remainder_buys_nothing_and_is_kept() {
    let mut p = property(1000, 10);
    let (pos, actions) = invest_in_property(id(3), id(4), &mut p, 105).unwrap();
    assert_eq!(pos.tokens_owned, 10);
    assert_eq!(pos.dividends_claimed, 0);
    assert_eq!(pos.investor, id(3));
    assert_eq!(pos.property, id(4));
    assert_eq!(p.available_tokens, 990);
    assert_eq!(
        actions,
        vec![
            LedgerAction::Transfer { token: Token::Payment, from: Holder::Investor, to: Holder::Property, amount: 105 },
            LedgerAction::Transfer { token: Token::Units, from: Holder::Property, to: Holder::Investor, amount: 10 },
        ]
    );
}

#[test]
fn invest_rejects_small_and_oversized_payments() {
    let mut p = property(5, 10);
    assert_eq!(invest_in_property(id(3), id(4), &mut p, 9).map(|_| ()), Err(Errors::InsufficientAmount));
    assert_eq!(invest_in_property(id(3), id(4), &mut p, 60).map(|_| ()), Err(Errors::NotEnoughTokens));
    assert_eq!(Errors::NotEnoughTokens.kind(), ErrorKind::NotEnoughTokens);
    assert_eq!(Errors::InsufficientAmount.kind(), ErrorKind::InsufficientAmount);
    assert_eq!(p.available_tokens, 5);
    assert!(invest_in_property(id(3), id(4), &mut p, 50).is_ok());
    assert_eq!(p.available_tokens, 0);
}

#[test]
fn invest_then_withdraw_restores_supply() {
    let mut p = property(1000, 10);
    let (mut pos, _) = invest_in_property(id(3), id(4), &mut p, 105).unwrap();
    let actions = withdraw_investment(&mut p, &mut pos).unwrap();
    assert_eq!(p.available_tokens, 1000);
    assert!(p.available_tokens <= p.total_tokens);
    assert_eq!(pos.tokens_owned, 0);
    assert_eq!(
        actions,
        vec![
            LedgerAction::Transfer { token: Token::Units, from: Holder::Investor, to: Holder::Property, amount: 10 },
            LedgerAction::Transfer { token: Token::Payment, from: Holder::Property, to: Holder::Investor, amount: 100 },
        ]
    );
}

#[test]
fn withdraw_refuses_closed_and_overflowing() {
    let mut p = property(1000, 10);
    let mut pos = Investor { investor: id(3), property: id(4), tokens_owned: u64::MAX, dividends_claimed: 0 };
    assert_eq!(withdraw_investment(&mut p, &mut pos), Err(Errors::MultiplicationError));
    let mut p1 = property(1000, 1);
    assert_eq!(withdraw_investment(&mut p1, &mut pos), Err(Errors::OverflowError));
    assert_eq!(pos.tokens_owned, u64::MAX);
    p.is_closed = true;
    let mut small = Investor { investor: id(3), property: id(4), tokens_owned: 1, dividends_claimed: 0 };
    assert_eq!(withdraw_investment(&mut p, &mut small), Err(Errors::PropertyClosed));
    assert_eq!(small.tokens_owned, 1);
}

#[test]
fn redeem_pays_units_times_income_per_unit() {
    let mut p = property(100, 10);
    distribute_dividends(&id(1), &mut p, 1000).unwrap();
    let mut pos = Investor { investor: id(3), property: id(4), tokens_owned: 10, dividends_claimed: 0 };
    let actions = redeem_dividends(&p, &mut pos).unwrap();
    assert_eq!(
        actions,
        vec![LedgerAction::Transfer { token: Token::Payment, from: Holder::Property, to: Holder::Investor, amount: 100 }]
    );
    assert_eq!(pos.dividends_claimed, 100);
}

#[test]
fn redeem_twice_pays_once() {
    let mut p = property(100, 10);
    distribute_dividends(&id(1), &mut p, 1000).unwrap();
    let mut pos = Investor { investor: id(3), property: id(4), tokens_owned: 10, dividends_claimed: 0 };
    redeem_dividends(&p, &mut pos).unwrap();
    assert_eq!(redeem_dividends(&p, &mut pos), Err(Errors::NoDividendsToClaim));
    assert_eq!(pos.dividends_claimed, 100);
    distribute_dividends(&id(1), &mut p, 500).unwrap();
    let actions = redeem_dividends(&p, &mut pos).unwrap();
    assert_eq!(
        actions,
        vec![LedgerAction::Transfer { token: Token::Payment, from: Holder::Property, to: Holder::Investor, amount: 50 }]
    );
    assert_eq!(pos.dividends_claimed, 150);
}

#[test]
fn redeem_error_cases() {
    let mut p = property(100, 10);
    distribute_dividends(&id(1), &mut p, 1000).unwrap();
    let mut over = Investor { investor: id(3), property: id(4), tokens_owned: 10, dividends_claimed: 101 };
    assert_eq!(redeem_dividends(&p, &mut over), Err(Errors::InvalidDividendsClaim));
    assert_eq!(over.dividends_claimed, 101);
    let mut huge = Investor { investor: id(3), property: id(4), tokens_owned: u64::MAX, dividends_claimed: 0 };
    assert_eq!(redeem_dividends(&p, &mut huge), Err(Errors::MultiplicationError));
    let mut empty = p.clone();
    empty.total_tokens = 0;
    assert_eq!(redeem_dividends(&empty, &mut over), Err(Errors::DivisionError));
}

#[test]
fn minting_dilutes_income_per_unit() {
    let mut p = property(100, 10);
    distribute_dividends(&id(1), &mut p, 1000).unwrap();
    mint_additional_tokens(&id(1), &mut p, 100).unwrap();
    let mut pos = Investor { investor: id(3), property: id(4), tokens_owned: 10, dividends_claimed: 0 };
    redeem_dividends(&p, &mut pos).unwrap();
    assert_eq!(pos.dividends_claimed, 50);
}
