use beef_market::price::{cents_from_product, parse_price, PriceEur, PriceError};

#[test]
fn parses_two_decimal_price() {
    let p = parse_price("10.24").unwrap();
    assert_eq!(p.mantissa(), 1024);
    assert_eq!(p.scale(), 2);
}

#[test]
fn refuses_text_that_is_no_number() {
    assert!(parse_price("abc").is_none());
    assert!(parse_price("").is_none());
    assert!(parse_price("10.24 €/kg").is_none());
}

#[test]
fn parses_scientific_notation() {
    let p = parse_price("1.5e2").unwrap();
    assert_eq!(p.to_cents(), Ok(15000));
}

#[test]
fn cents_of_two_decimal_prices() {
    assert_eq!(parse_price("10.24").unwrap().to_cents(), Ok(1024));
    assert_eq!(parse_price("19.24").unwrap().to_cents(), Ok(1924));
    assert_eq!(parse_price("7").unwrap().to_cents(), Ok(700));
    assert_eq!(parse_price("0.5").unwrap().to_cents(), Ok(50));
}

#[test]
fn cents_truncate_toward_zero() {
    assert_eq!(parse_price("10.249").unwrap().to_cents(), Ok(1024));
    assert_eq!(parse_price("-10.249").unwrap().to_cents(), Ok(-1024));
    assert_eq!(PriceEur::new(-1, 3).unwrap().to_cents(), Ok(0));
}

#[test]
fn cents_of_zero() {
    assert_eq!(PriceEur::new(0, 28).unwrap().to_cents(), Ok(0));
}

#[test]
fn cents_that_do_not_fit_i64() {
    let huge = PriceEur::new(1_000_000_000_000_000_000_000i128, 0).unwrap();
    assert_eq!(huge.to_cents(), Err(PriceError::CannotRepresentAsI64));
    let edge = PriceEur::new(92233720368547758i128, 0).unwrap();
    assert_eq!(edge.to_cents(), Ok(9223372036854775800));
    let over = PriceEur::new(92233720368547759i128, 0).unwrap();
    assert_eq!(over.to_cents(), Err(PriceError::CannotRepresentAsI64));
}

#[test]
fn multiplying_the_largest_mantissa_overflows() {
    let max = PriceEur::new(0xFFFF_FFFF_FFFF_FFFF_FFFF_FFFFi128, 0).unwrap();
    assert_eq!(max.to_cents(), Err(PriceError::Overflow));
}

#[test]
fn price_constructor_ranges() {
    assert!(PriceEur::new(1, 28).is_some());
    assert!(PriceEur::new(1, 29).is_none());
    assert!(PriceEur::new(0x1_0000_0000_0000_0000_0000_0000i128, 0).is_none());
    assert!(PriceEur::new(-0xFFFF_FFFF_FFFF_FFFF_FFFF_FFFFi128, 2).is_some());
}

#[test]
fn cents_from_product_results() {
    assert_eq!(cents_from_product(None), Err(PriceError::Overflow));
    assert_eq!(cents_from_product(Some((102400, 2))), Ok(1024));
    assert_eq!(cents_from_product(Some((-5, 1))), Ok(0));
}

#[test]
fn product_that_needs_rescaling_keeps_its_value() {
    let ten_million_euro = PriceEur::new(1_000_000_000_000_000_000_000_000_000, 20).unwrap();
    assert_eq!(ten_million_euro.to_cents(), Ok(1_000_000_000));
    let fine = PriceEur::new(-123_456_789_012_345_678_901_234_567, 27).unwrap();
    assert_eq!(fine.to_cents(), Ok(-12));
}
