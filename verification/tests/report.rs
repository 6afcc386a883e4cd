use occ_transfer::engine::TransferError;
use occ_transfer::money::Money;
use occ_transfer::report::{respond, transaction_time};
use occ_transfer::transfer::Report;

#[test]
fn time_has_three_decimal_places() {
    assert_eq!(transaction_time(16_955_000), "16.955ms");
    assert_eq!(transaction_time(0), "0.000ms");
    assert_eq!(transaction_time(1_000_000), "1.000ms");
    assert_eq!(transaction_time(7_000), "0.007ms");
    assert_eq!(transaction_time(70_000), "0.070ms");
    assert_eq!(transaction_time(12_345_678_000), "12345.678ms");
}

#[test]
fn time_is_rounded_to_the_nearest_microsecond() {
    assert_eq!(transaction_time(1_499), "0.001ms");
    assert_eq!(transaction_time(1_500), "0.002ms");
    assert_eq!(transaction_time(499), "0.000ms");
    assert_eq!(transaction_time(500), "0.001ms");
    assert_eq!(transaction_time(999_999_500), "1000.000ms");
    assert_eq!(transaction_time(9_999_499), "9.999ms");
}

#[test]
fn time_of_the_longest_duration() {
    assert_eq!(
        transaction_time(u128::MAX),
        "340282366920938463463374607431768.211ms"
    );
}

#[test]
fn time_agrees_with_float_formatting() {
    for nanos in [16_955_000u128, 1_234_567, 250_000, 3_000_000_000, 42] {
        let millis = nanos as f64 / 1_000_000.0;
        assert_eq!(transaction_time(nanos), format!("{:.3}ms", millis));
    }
}

#[test]
fn success_is_reported_with_its_time() {
    let balance = Money::new(7000, 2).unwrap();
    let response = respond(Report { outcome: Ok(balance), attempts: 3 }, 16_955_000).unwrap();
    assert_eq!((response.payer_balance.units(), response.payer_balance.scale()), (7000, 2));
    assert_eq!(response.transaction_time, "16.955ms");
    assert_eq!(response.attempts, 3);
}

#[test]
fn failure_is_passed_on() {
    let result = respond(Report { outcome: Err(TransferError::PayeeNotFound), attempts: 1 }, 5);
    assert!(matches!(result, Err(TransferError::PayeeNotFound)));
}
