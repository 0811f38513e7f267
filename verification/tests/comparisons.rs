use std::str::FromStr;

use bson::Decimal128;
use discount_rules::decimal::{Decimal, Relation};
use discount_rules::discount::{compare_decimal, compare_i32, Operator};

fn read(text: &str) -> f64 {
    Decimal128::from_str(text).unwrap().to_string().parse::<f64>().unwrap_or(0.0)
}

fn number(text: &str) -> Decimal {
    let parsed = Decimal128::from_str(text).unwrap();
    let reading: Option<u64> = parsed.to_string().parse::<f64>().ok().map(f64::to_bits);
    Decimal::from_reading(u128::from_le_bytes(parsed.bytes()), reading)
}

fn of_bits(bits: u64) -> Decimal {
    Decimal::new(0, bits)
}

fn all_operators() -> Vec<Operator> {
    vec![
        Operator::Equal,
        Operator::NotEqual,
        Operator::GreaterThan,
        Operator::LessThan,
        Operator::GreaterThanOrEqual,
        Operator::LessThanOrEqual,
        Operator::Contains,
        Operator::DoesNotContain,
    ]
}

fn on_floats(a: f64, b: f64, op: &Operator) -> bool {
    match op {
        Operator::Equal => a == b,
        Operator::NotEqual => a != b,
        Operator::GreaterThan => a > b,
        Operator::LessThan => a < b,
        Operator::GreaterThanOrEqual => a >= b,
        Operator::LessThanOrEqual => a <= b,
        _ => false,
    }
}

#[test]
fn integers_under_each_operator() {
    assert!(compare_i32(2, 2, &Operator::Equal));
    assert!(!compare_i32(2, 3, &Operator::Equal));
    assert!(compare_i32(2, 3, &Operator::NotEqual));
    assert!(!compare_i32(2, 2, &Operator::NotEqual));
    assert!(compare_i32(3, 2, &Operator::GreaterThan));
    assert!(!compare_i32(2, 2, &Operator::GreaterThan));
    assert!(compare_i32(-3, 2, &Operator::LessThan));
    assert!(!compare_i32(2, 2, &Operator::LessThan));
    assert!(compare_i32(2, 2, &Operator::GreaterThanOrEqual));
    assert!(!compare_i32(1, 2, &Operator::GreaterThanOrEqual));
    assert!(compare_i32(2, 2, &Operator::LessThanOrEqual));
    assert!(!compare_i32(3, 2, &Operator::LessThanOrEqual));
}

#[test]
fn integers_at_the_ends_of_their_range() {
    assert!(compare_i32(i32::MIN, i32::MAX, &Operator::LessThan));
    assert!(compare_i32(i32::MAX, i32::MIN, &Operator::GreaterThan));
    assert!(compare_i32(i32::MIN, i32::MIN, &Operator::Equal));
    assert!(compare_i32(i32::MAX, i32::MAX, &Operator::LessThanOrEqual));
}

#[test]
fn text_operators_accept_no_numbers() {
    assert!(!compare_i32(2, 2, &Operator::Contains));
    assert!(!compare_i32(2, 2, &Operator::DoesNotContain));
    assert!(!compare_i32(2, 3, &Operator::Contains));
    assert!(!compare_i32(2, 3, &Operator::DoesNotContain));
    let fifty = number("50");
    assert!(!compare_decimal(fifty, fifty, &Operator::Contains));
    assert!(!compare_decimal(fifty, fifty, &Operator::DoesNotContain));
    assert!(!compare_decimal(fifty, number("60"), &Operator::Contains));
    assert!(!compare_decimal(fifty, number("60"), &Operator::DoesNotContain));
}

#[test]
fn decimals_under_each_operator() {
    let hundred = number("100.00");
    let fifty = number("50.00");
    assert!(compare_decimal(hundred, fifty, &Operator::GreaterThan));
    assert!(!compare_decimal(fifty, hundred, &Operator::GreaterThan));
    assert!(compare_decimal(fifty, hundred, &Operator::LessThan));
    assert!(!compare_decimal(hundred, fifty, &Operator::LessThan));
    assert!(compare_decimal(fifty, number("50"), &Operator::Equal));
    assert!(!compare_decimal(fifty, hundred, &Operator::Equal));
    assert!(compare_decimal(fifty, hundred, &Operator::NotEqual));
    assert!(!compare_decimal(fifty, number("5.0E+1"), &Operator::NotEqual));
    assert!(compare_decimal(fifty, fifty, &Operator::GreaterThanOrEqual));
    assert!(!compare_decimal(fifty, hundred, &Operator::GreaterThanOrEqual));
    assert!(compare_decimal(fifty, fifty, &Operator::LessThanOrEqual));
    assert!(!compare_decimal(hundred, fifty, &Operator::LessThanOrEqual));
}

#[test]
fn decimals_are_ordered_by_what_they_read_as() {
    assert_eq!(number("-1").relate(&number("1")), Relation::Less);
    assert_eq!(number("1").relate(&number("-1")), Relation::Greater);
    assert_eq!(number("-2").relate(&number("-1")), Relation::Less);
    assert_eq!(number("-1").relate(&number("-2")), Relation::Greater);
    assert_eq!(number("-1.5").relate(&number("-1.5")), Relation::Equal);
    assert_eq!(number("0.1").relate(&number("0.2")), Relation::Less);
    assert_eq!(number("1E-400").relate(&number("0")), Relation::Equal);
    assert_eq!(number("1E+400").relate(&number("Infinity")), Relation::Equal);
    assert_eq!(
        number("0.1").relate(&number("0.1000000000000000000000000000000001")),
        Relation::Equal
    );
}

#[test]
fn both_zeros_are_equal() {
    let plus = number("0");
    let minus = number("-0");
    assert_eq!(minus.binary64, 0x8000_0000_0000_0000);
    assert_eq!(plus.relate(&minus), Relation::Equal);
    assert_eq!(minus.relate(&plus), Relation::Equal);
    assert!(compare_decimal(plus, minus, &Operator::Equal));
    assert!(compare_decimal(minus, plus, &Operator::GreaterThanOrEqual));
    assert!(!compare_decimal(minus, plus, &Operator::LessThan));
    assert!(!compare_decimal(plus, minus, &Operator::NotEqual));
}

#[test]
fn no_number_satisfies_not_equal_only() {
    let nan = number("NaN");
    let one = number("1");
    assert!(nan.is_not_a_number());
    assert!(!one.is_not_a_number());
    assert!(!number("Infinity").is_not_a_number());
    assert!(!number("-Infinity").is_not_a_number());
    assert_eq!(nan.relate(&one), Relation::Unordered);
    assert_eq!(one.relate(&nan), Relation::Unordered);
    assert_eq!(nan.relate(&nan), Relation::Unordered);
    for op in all_operators() {
        let expected = matches!(op, Operator::NotEqual);
        assert_eq!(compare_decimal(nan, one, &op), expected);
        assert_eq!(compare_decimal(one, nan, &op), expected);
        assert_eq!(compare_decimal(nan, nan, &op), expected);
    }
    assert!(of_bits(0x7ff0_0000_0000_0001).is_not_a_number());
    assert!(of_bits(0xfff8_0000_0000_0000).is_not_a_number());
    assert!(of_bits(0xffff_ffff_ffff_ffff).is_not_a_number());
    assert!(!of_bits(0x7ff0_0000_0000_0000).is_not_a_number());
    assert!(!of_bits(0xfff0_0000_0000_0000).is_not_a_number());
}

#[test]
fn infinities_are_the_two_ends() {
    let up = number("Infinity");
    let down = number("-Infinity");
    let big = number("1E+308");
    assert_eq!(big.relate(&up), Relation::Less);
    assert_eq!(down.relate(&number("-1E+308")), Relation::Less);
    assert_eq!(down.relate(&up), Relation::Less);
    assert_eq!(up.relate(&up), Relation::Equal);
    assert_eq!(down.relate(&down), Relation::Equal);
    assert_eq!(up.relate(&down), Relation::Greater);
}

#[test]
fn comparison_agrees_with_the_binary_values() {
    let texts: Vec<&str> = vec![
        "0", "-0", "1", "-1", "0.5", "-0.5", "50.00", "100.00", "10.00", "49.99", "50.01",
        "1E-320", "-1E-320", "4.9E-324", "1.7976931348623157E+308", "-1.7976931348623157E+308",
        "1E+6000", "-1E+6000", "1E-6000", "Infinity", "-Infinity", "NaN",
        "9999999999999999999999999999999999", "0.3333333333333333333333333333333333",
        "123456789.123456789", "-123456789.123456789",
    ];
    for left in &texts {
        for right in &texts {
            let a = read(left);
            let b = read(right);
            for op in all_operators() {
                assert_eq!(
                    compare_decimal(number(left), number(right), &op),
                    on_floats(a, b, &op),
                    "{} {:?} {}",
                    left,
                    op,
                    right
                );
            }
        }
    }
}

#[test]
fn comparison_agrees_with_the_binary_values_on_bit_patterns() {
    let patterns: Vec<u64> = vec![
        0x0000_0000_0000_0000,
        0x0000_0000_0000_0001,
        0x000f_ffff_ffff_ffff,
        0x0010_0000_0000_0000,
        0x3ff0_0000_0000_0000,
        0x4049_0000_0000_0000,
        0x4059_0000_0000_0000,
        0x7fef_ffff_ffff_ffff,
        0x7ff0_0000_0000_0000,
        0x7ff0_0000_0000_0001,
        0x7ff8_0000_0000_0000,
        0x7fff_ffff_ffff_ffff,
        0x8000_0000_0000_0000,
        0x8000_0000_0000_0001,
        0x800f_ffff_ffff_ffff,
        0x8010_0000_0000_0000,
        0xbff0_0000_0000_0000,
        0xc049_0000_0000_0000,
        0xffef_ffff_ffff_ffff,
        0xfff0_0000_0000_0000,
        0xfff0_0000_0000_0001,
        0xffff_ffff_ffff_ffff,
    ];
    for left in &patterns {
        for right in &patterns {
            let a = f64::from_bits(*left);
            let b = f64::from_bits(*right);
            for op in all_operators() {
                assert_eq!(
                    compare_decimal(of_bits(*left), of_bits(*right), &op),
                    on_floats(a, b, &op),
                    "{:#x} {:?} {:#x}",
                    left,
                    op,
                    right
                );
            }
        }
    }
}

#[test]
fn unreadable_decimal_reads_as_zero() {
    let unreadable = Decimal::from_reading(42, None);
    assert_eq!(unreadable.encoding, 42);
    assert_eq!(unreadable.binary64, 0);
    assert_eq!(unreadable.relate(&number("0")), Relation::Equal);
    assert!(compare_decimal(unreadable, number("-1"), &Operator::GreaterThan));
    assert!(compare_decimal(unreadable, number("1"), &Operator::LessThan));

    let readable = Decimal::from_reading(42, Some(0x4049_0000_0000_0000));
    assert_eq!(readable, Decimal::new(42, 0x4049_0000_0000_0000));
    assert_eq!(readable.relate(&number("50")), Relation::Equal);
}

#[test]
fn decimal_keeps_its_encoding() {
    let texts: Vec<&str> = vec!["0", "-0", "50.00", "5E+1", "NaN", "-Infinity", "1E-6176"];
    for text in texts {
        let parsed = Decimal128::from_str(text).unwrap();
        let held = number(text);
        assert_eq!(Decimal128::from_bytes(held.encoding.to_le_bytes()), parsed);
        assert_eq!(held.binary64, read(text).to_bits());
    }
    assert_ne!(number("50.00").encoding, number("5E+1").encoding);
    assert_eq!(number("50.00").binary64, number("5E+1").binary64);
}

#[test]
fn encoding_takes_no_part_in_the_order() {
    let one = Decimal::new(1, 0x3ff0_0000_0000_0000);
    let other = Decimal::new(2, 0x3ff0_0000_0000_0000);
    assert_eq!(one.relate(&other), Relation::Equal);
    assert!(compare_decimal(one, other, &Operator::Equal));
    assert_eq!(one.encoding, 1);
    assert_eq!(other.encoding, 2);
}

#[test]
fn operator_reads_a_relation() {
    assert!(Operator::Equal.is_satisfied_by(Relation::Equal));
    assert!(!Operator::Equal.is_satisfied_by(Relation::Less));
    assert!(!Operator::Equal.is_satisfied_by(Relation::Unordered));
    assert!(Operator::NotEqual.is_satisfied_by(Relation::Unordered));
    assert!(Operator::NotEqual.is_satisfied_by(Relation::Greater));
    assert!(!Operator::NotEqual.is_satisfied_by(Relation::Equal));
    assert!(Operator::GreaterThan.is_satisfied_by(Relation::Greater));
    assert!(!Operator::GreaterThan.is_satisfied_by(Relation::Equal));
    assert!(Operator::LessThan.is_satisfied_by(Relation::Less));
    assert!(!Operator::LessThan.is_satisfied_by(Relation::Unordered));
    assert!(Operator::GreaterThanOrEqual.is_satisfied_by(Relation::Equal));
    assert!(Operator::GreaterThanOrEqual.is_satisfied_by(Relation::Greater));
    assert!(!Operator::GreaterThanOrEqual.is_satisfied_by(Relation::Less));
    assert!(!Operator::GreaterThanOrEqual.is_satisfied_by(Relation::Unordered));
    assert!(Operator::LessThanOrEqual.is_satisfied_by(Relation::Equal));
    assert!(Operator::LessThanOrEqual.is_satisfied_by(Relation::Less));
    assert!(!Operator::LessThanOrEqual.is_satisfied_by(Relation::Greater));
    assert!(!Operator::Contains.is_satisfied_by(Relation::Equal));
    assert!(!Operator::DoesNotContain.is_satisfied_by(Relation::Less));
}
