use std::str::FromStr;

use rust_decimal::Decimal;
use viac_pdf_import::money::{Amount, Money};

fn amount(s: &str) -> Amount {
    Amount::parse(s).unwrap()
}

fn decimal(a: Amount) -> Decimal {
    Decimal::from_i128_with_scale(a.mantissa(), a.scale())
}

#[test]
fn compensate_rounding() {
    let share_price = Money::new("CHF", amount("2711.97"));
    let valuta = Money::new("CHF", amount("41.53"));
    let shares = decimal(valuta.amount) / decimal(share_price.amount);

    assert_eq!(shares.round_dp(7), Decimal::from_str("0.0153136").unwrap());
    assert_eq!(
        (shares.round_dp(7) * decimal(share_price.amount)).round_dp(2),
        decimal(valuta.amount)
    );
}

#[test]
fn money_currency_codes() {
    let m = Money::new("CHF", amount("1"));
    assert_eq!(&m.currency, b"CHF");
    assert!(m.is_chf());
    let u = Money::new("USD", amount("1"));
    assert!(!u.is_chf());
    assert!(!m.same_currency(&u));
    assert!(m.same_currency(&Money::new("CHF", amount("100"))));
    assert_eq!(amount("2'711.97".replace('\'', "").as_str()).mantissa(), 271197);
    assert_eq!(amount("2711.97").scale(), 2);
    assert!(Amount::new(1, 29).is_none());
}
