use ledger::amount::{Amount, AmountError};
use ledger::config::MAX_UNITS;
use rust_decimal::prelude::ToPrimitive;
use rust_decimal::Decimal;
use rusty_money::iso::{Currency, USD};
use rusty_money::Money;

fn decimal_of(amount: &Amount) -> Decimal {
    Decimal::from_i128_with_scale(amount.value() as i128, 4)
}

fn from_money(money: Money<'static, Currency>) -> Result<Amount, AmountError> {
    Amount::from_decimal_parts(money.amount().mantissa(), money.amount().scale())
}

fn rejected(error: AmountError) -> Decimal {
    match error {
        AmountError::NegativeValue(mantissa, scale) => {
            Decimal::from_i128_with_scale(mantissa, scale)
        }
        other => panic!("Unexpected error: {:?}", other),
    }
}

#[test]
fn test_checked_sub_assign() {
    let mut amount1 = from_money(Money::from_str("10.0", USD).unwrap()).unwrap();
    let amount2 = from_money(Money::from_str("5.0", USD).unwrap()).unwrap();

    amount1.checked_sub_assign(amount2.clone()).unwrap();

    assert_eq!(decimal_of(&amount1).to_f32().unwrap(), 5.0);
}

#[test]
fn test_add_assign() {
    let mut amount1 = from_money(Money::from_str("10.0", USD).unwrap()).unwrap();
    let amount2 = from_money(Money::from_str("5.0", USD).unwrap()).unwrap();

    amount1.add_assign(amount2.clone());

    assert_eq!(decimal_of(&amount1).to_f32().unwrap(), 15.0);
}

#[test]
fn test_try_from_str() {
    let amount = Amount::try_from("20.0").unwrap();

    assert_eq!(decimal_of(&amount).to_f32().unwrap(), 20.0);
}

#[test]
fn test_try_from_negative_str() {
    let amount = Amount::try_from("-20.0");

    assert!(amount.is_err());
    let error = amount.unwrap_err();
    assert_eq!(rejected(error).to_f32().unwrap(), -20.0);
}

#[test]
fn test_try_from_money() {
    let money = Money::from_str("30.0", USD).unwrap();
    let amount = from_money(money.clone()).unwrap();

    assert_eq!(decimal_of(&amount).to_f32().unwrap(), 30.0);
}

#[test]
fn test_try_from_negative_money() {
    let money = Money::from_str("-30.0", USD).unwrap();
    let amount = from_money(money.clone());

    assert!(amount.is_err());
    let error = amount.unwrap_err();
    assert_eq!(rejected(error).to_f32().unwrap(), -30.0);
}

#[test]
fn test_no_negative_tx_amounts() {
    assert!(from_money(Money::from_str("0.1", USD).unwrap()).is_ok());
    assert!(from_money(Money::from_str("0.0", USD).unwrap()).is_ok());
    assert!(from_money(Money::from_str("-0.1", USD).unwrap()).is_err());
}

#[test]
fn parse_counts_ten_thousandths() {
    assert_eq!(Amount::parse("12.34").unwrap().value(), 123_400);
    assert_eq!(Amount::parse("1").unwrap().value(), 10_000);
    assert_eq!(Amount::parse("1.5").unwrap().value(), 15_000);
    assert_eq!(Amount::parse("0.0001").unwrap().value(), 1);
    assert_eq!(Amount::parse("1.1234").unwrap().value(), 11_234);
    assert_eq!(Amount::parse("0").unwrap().value(), 0);
}

#[test]
fn parse_reads_what_the_decimal_reader_reads() {
    assert_eq!(Amount::parse("+2.5").unwrap().value(), 25_000);
    assert_eq!(Amount::parse("1_000").unwrap().value(), 10_000_000);
    assert_eq!(Amount::parse(".5").unwrap().value(), 5_000);
    assert_eq!(Amount::parse("0001.50").unwrap().value(), 15_000);
}

#[test]
fn parse_takes_negative_zero_as_zero() {
    assert_eq!(Amount::parse("-0.0").unwrap(), Amount::default());
}

#[test]
fn parse_rejects_text_that_is_no_decimal() {
    assert_eq!(Amount::parse("abc"), Err(AmountError::Malformed));
    assert_eq!(Amount::parse(""), Err(AmountError::Malformed));
    assert_eq!(Amount::parse("1.2.3"), Err(AmountError::Malformed));
    assert_eq!(Amount::parse("1,000.00"), Err(AmountError::Malformed));
}

#[test]
fn parse_rejects_a_fifth_decimal_place() {
    assert_eq!(Amount::parse("1.12345"), Err(AmountError::TooManyDecimalPlaces(5)));
    assert_eq!(Amount::parse("1.10010"), Err(AmountError::TooManyDecimalPlaces(5)));
    assert_eq!(Amount::parse("0.00000"), Err(AmountError::TooManyDecimalPlaces(5)));
}

#[test]
fn parse_rejects_the_scale_before_the_sign() {
    assert_eq!(Amount::parse("-1.12345"), Err(AmountError::TooManyDecimalPlaces(5)));
}

#[test]
fn parse_rejects_a_negative_value_with_its_parts() {
    assert_eq!(Amount::parse("-0.1"), Err(AmountError::NegativeValue(-1, 1)));
    assert_eq!(Amount::parse("-20.00"), Err(AmountError::NegativeValue(-2000, 2)));
}

#[test]
fn parse_rejects_what_does_not_fit() {
    assert_eq!(
        Amount::parse("7922816251426433759354395.0335").unwrap().value(),
        MAX_UNITS
    );
    assert_eq!(Amount::parse("7922816251426433759354396"), Err(AmountError::Overflow));
    assert_eq!(
        Amount::parse("79228162514264337593543950335"),
        Err(AmountError::Overflow)
    );
}

#[test]
fn from_decimal_parts_scales_the_mantissa() {
    assert_eq!(Amount::from_decimal_parts(300, 1).unwrap().value(), 300_000);
    assert_eq!(Amount::from_decimal_parts(7, 0).unwrap().value(), 70_000);
    assert_eq!(Amount::from_decimal_parts(7, 2).unwrap().value(), 700);
    assert_eq!(Amount::from_decimal_parts(7, 3).unwrap().value(), 70);
    assert_eq!(Amount::from_decimal_parts(7, 4).unwrap().value(), 7);
    assert_eq!(
        Amount::from_decimal_parts(7, 5),
        Err(AmountError::TooManyDecimalPlaces(5))
    );
    assert_eq!(Amount::from_decimal_parts(-7, 4), Err(AmountError::NegativeValue(-7, 4)));
    assert_eq!(Amount::from_decimal_parts(i128::MAX, 0), Err(AmountError::Overflow));
    assert_eq!(
        Amount::from_decimal_parts(MAX_UNITS as i128, 4).unwrap().value(),
        MAX_UNITS
    );
    assert_eq!(
        Amount::from_decimal_parts(MAX_UNITS as i128 + 1, 4),
        Err(AmountError::Overflow)
    );
}

#[test]
fn default_is_zero() {
    assert_eq!(Amount::default().value(), 0);
    assert_eq!(Amount::default(), Amount::parse("0.0").unwrap());
}

#[test]
fn amounts_compare_by_value_not_by_text() {
    assert_eq!(Amount::parse("1.0").unwrap(), Amount::parse("1.00").unwrap());
    assert_eq!(Amount::parse("2").unwrap(), Amount::parse("2.0000").unwrap());
    assert_ne!(Amount::parse("2").unwrap(), Amount::parse("2.0001").unwrap());
}

#[test]
fn checked_add_sums_or_reports_overflow() {
    let one = Amount::parse("1.5").unwrap();
    let two = Amount::parse("2.25").unwrap();
    assert_eq!(one.checked_add(two).unwrap().value(), 37_500);

    let most = Amount::from_decimal_parts(MAX_UNITS as i128, 4).unwrap();
    let least = Amount::from_decimal_parts(1, 4).unwrap();
    assert_eq!(most.checked_add(least), Err(AmountError::Overflow));
    assert_eq!(most.checked_add(Amount::default()).unwrap(), most);
}

#[test]
fn checked_sub_assign_fails_with_both_operands_and_changes_nothing() {
    let mut small = Amount::parse("1").unwrap();
    let large = Amount::parse("1.0001").unwrap();
    let before = small;

    assert_eq!(
        small.checked_sub_assign(large),
        Err(AmountError::SubtractToNegative(before, large))
    );
    assert_eq!(small, before);
}

#[test]
fn checked_sub_assign_to_zero() {
    let mut amount = Amount::parse("3.3").unwrap();
    amount.checked_sub_assign(Amount::parse("3.30").unwrap()).unwrap();
    assert_eq!(amount.value(), 0);
}

#[test]
fn covers_compares_amounts() {
    let one = Amount::parse("1").unwrap();
    let two = Amount::parse("2").unwrap();
    assert!(two.covers(&one));
    assert!(one.covers(&one));
    assert!(!one.covers(&two));
}

#[test]
fn format_writes_four_decimal_places() {
    assert_eq!(Amount::parse("2").unwrap().format(), "2.0000");
    assert_eq!(Amount::parse("1.5").unwrap().format(), "1.5000");
    assert_eq!(Amount::parse("1.1001").unwrap().format(), "1.1001");
    assert_eq!(Amount::parse("0.0001").unwrap().format(), "0.0001");
    assert_eq!(Amount::default().format(), "0.0000");
    assert_eq!(
        Amount::from_decimal_parts(MAX_UNITS as i128, 4).unwrap().format(),
        "7922816251426433759354395.0335"
    );
}

#[test]
fn format_of_a_sum() {
    let available = Amount::parse("1.1001").unwrap();
    let held = Amount::parse("2.1001").unwrap();
    assert_eq!(available.checked_add(held).unwrap().format(), "3.2002");
}

#[test]
fn format_then_parse_gives_the_amount_back() {
    for units in [0i128, 1, 9, 10, 9_999, 10_000, 10_001, 123_456_789, MAX_UNITS as i128] {
        let amount = Amount::from_decimal_parts(units, 4).unwrap();
        assert_eq!(Amount::parse(&amount.format()), Ok(amount));
    }
}

#[test]
fn units_read_back_at_the_fixed_scale_give_the_amount_back() {
    let amount = Amount::parse("12.34").unwrap();
    assert_eq!(Amount::from_decimal_parts(amount.value() as i128, 4), Ok(amount));
}

#[test]
fn messages_of_amount_errors() {
    assert_eq!(AmountError::Malformed.message(), "Amount is not a decimal number");
    assert_eq!(
        AmountError::TooManyDecimalPlaces(5).message(),
        "Amount has too many decimal places"
    );
    assert_eq!(
        AmountError::NegativeValue(-1, 1).message(),
        "Amount cannot be negative: -0.1"
    );
    assert_eq!(
        Amount::parse("-20.00").unwrap_err().message(),
        "Amount cannot be negative: -20.00"
    );
    assert_eq!(AmountError::NegativeValue(-1, 29).message(), "Amount cannot be negative");
    assert_eq!(AmountError::NegativeValue(i128::MIN, 0).message(), "Amount cannot be negative");
    assert_eq!(AmountError::Overflow.message(), "Amount is too large");
    let lhs = Amount::parse("1").unwrap();
    let rhs = Amount::parse("2.5").unwrap();
    assert_eq!(
        AmountError::SubtractToNegative(lhs, rhs).message(),
        "Subtraction results in negative amount: 1.0000 - 2.5000"
    );
}
