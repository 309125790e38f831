use near_cli::common::{NearBalance, NearGas, ONE_NEAR, ONE_TERA_GAS};
use near_cli::text::parse_amount;

#[test]
fn parse_amount_reads_digits_and_unit() {
    assert_eq!(parse_amount("100 TeraGas", "TeraGas"), Some(100));
    assert_eq!(parse_amount("0 NEAR", "NEAR"), Some(0));
    assert_eq!(parse_amount("007 Gas", "Gas"), Some(7));
    assert_eq!(parse_amount("5 ", ""), Some(5));
    assert_eq!(
        parse_amount("340282366920938463463374607431768211455 x", "x"),
        Some(u128::MAX)
    );
}

#[test]
fn parse_amount_refuses_other_forms() {
    assert_eq!(parse_amount("100TeraGas", "TeraGas"), None);
    assert_eq!(parse_amount("100  TeraGas", "TeraGas"), None);
    assert_eq!(parse_amount(" TeraGas", "TeraGas"), None);
    assert_eq!(parse_amount("TeraGas", "TeraGas"), None);
    assert_eq!(parse_amount("", "TeraGas"), None);
    assert_eq!(parse_amount("100 teragas", "TeraGas"), None);
    assert_eq!(parse_amount("100 TeraGas ", "TeraGas"), None);
    assert_eq!(parse_amount(" 100 TeraGas", "TeraGas"), None);
    assert_eq!(parse_amount("1.5 TeraGas", "TeraGas"), None);
    assert_eq!(parse_amount("-1 TeraGas", "TeraGas"), None);
    assert_eq!(parse_amount("+1 TeraGas", "TeraGas"), None);
    assert_eq!(parse_amount("١ TeraGas", "TeraGas"), None);
}

#[test]
fn parse_amount_refuses_numbers_that_do_not_fit() {
    assert_eq!(parse_amount("340282366920938463463374607431768211456 x", "x"), None);
    assert_eq!(parse_amount("999999999999999999999999999999999999999999 x", "x"), None);
    assert_eq!(
        parse_amount("000340282366920938463463374607431768211455 x", "x"),
        Some(u128::MAX)
    );
}

#[test]
fn gas_is_read_in_teragas_and_in_gas() {
    assert_eq!(NearGas::parse("100 TeraGas"), Some(NearGas { inner: 100 * ONE_TERA_GAS }));
    assert_eq!(NearGas::parse("0 TeraGas"), Some(NearGas { inner: 0 }));
    assert_eq!(NearGas::parse("1 Gas"), Some(NearGas { inner: 1 }));
    assert_eq!(NearGas::parse("18446744073709551615 Gas"), Some(NearGas { inner: u64::MAX }));
    assert_eq!(
        NearGas::parse("18446744 TeraGas"),
        Some(NearGas { inner: 18_446_744_000_000_000_000 })
    );
}

#[test]
fn gas_that_does_not_fit_is_refused() {
    assert_eq!(NearGas::parse("18446745 TeraGas"), None);
    assert_eq!(NearGas::parse("18446744073709551616 Gas"), None);
    assert_eq!(NearGas::parse("340282366920938463463374607431768211456 TeraGas"), None);
}

#[test]
fn gas_in_another_form_is_refused() {
    assert_eq!(NearGas::parse("100"), None);
    assert_eq!(NearGas::parse("100 NEAR"), None);
    assert_eq!(NearGas::parse("TeraGas"), None);
    assert_eq!(NearGas::parse("100 Tgas"), None);
    assert_eq!(NearGas::parse(""), None);
}

#[test]
fn gas_text_is_read_back() {
    for inner in [0, 1, 999, ONE_TERA_GAS - 1, ONE_TERA_GAS, ONE_TERA_GAS + 1, 300 * ONE_TERA_GAS, u64::MAX] {
        let gas = NearGas { inner };
        assert_eq!(NearGas::parse(&gas.to_string()), Some(gas));
    }
}

#[test]
fn balance_is_read_in_near_and_in_yoctonear() {
    assert_eq!(NearBalance::parse("0 NEAR"), Some(NearBalance::from_yoctonear(0)));
    assert_eq!(NearBalance::parse("10 NEAR"), Some(NearBalance::from_yoctonear(10 * ONE_NEAR)));
    assert_eq!(NearBalance::parse("10000 yoctoNEAR"), Some(NearBalance::from_yoctonear(10000)));
    assert_eq!(
        NearBalance::parse("340282366920938 NEAR"),
        Some(NearBalance::from_yoctonear(340282366920938 * ONE_NEAR))
    );
}

#[test]
fn balance_that_does_not_fit_is_refused() {
    assert_eq!(NearBalance::parse("340282366920939 NEAR"), None);
    assert_eq!(NearBalance::parse("340282366920938463463374607431768211456 yoctoNEAR"), None);
}

#[test]
fn balance_in_another_form_is_refused() {
    assert_eq!(NearBalance::parse("10NEAR"), None);
    assert_eq!(NearBalance::parse("0.5 NEAR"), None);
    assert_eq!(NearBalance::parse("10 near"), None);
    assert_eq!(NearBalance::parse("10 TeraGas"), None);
    assert_eq!(NearBalance::parse(""), None);
}

#[test]
fn balance_text_is_read_back() {
    for amount in [0, 1, ONE_NEAR - 1, ONE_NEAR, ONE_NEAR + 1, 10 * ONE_NEAR, u128::MAX] {
        let balance = NearBalance::from_yoctonear(amount);
        assert_eq!(NearBalance::parse(&balance.to_string()), Some(balance));
    }
}
