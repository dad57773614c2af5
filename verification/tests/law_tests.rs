use beef_market::listing::{rimi_listing, rimi_listing_checked};
use beef_market::price::parse_price;
use beef_market::scraper::{price_decimal_string, products_from_cards, CardText};
use beef_market::text::trim_str;
use beef_market::worker::is_time_to_run;

#[test]
fn trimming_twice_is_trimming_once() {
    for s in ["  a b \n", "\u{2003}x\u{2003}", "", "   ", "abc"] {
        let once = trim_str(s);
        assert_eq!(trim_str(&once), once);
    }
}

#[test]
fn newlines_at_ends_then_trim_is_trim() {
    for s in ["\n\n Veis \n", " \nVeis\n ", "\n", "Veis"] {
        assert_eq!(trim_str(s.trim_matches('\n')), trim_str(s));
    }
}

#[test]
fn price_decimal_text_has_no_comma() {
    let d = price_decimal_string(" 1,2,3 €/kg", true).unwrap();
    assert!(!d.contains(','));
    assert_eq!(d, "1.2.3");
}

#[test]
fn at_most_one_product_per_card_with_trimmed_names() {
    let cards: Vec<CardText> = (0..5)
        .map(|i| CardText {
            title: Some(format!("  Product {} \n", i)),
            price: if i % 2 == 0 { Some(format!("{},50 €/kg", i)) } else { None },
        })
        .collect();
    let products = products_from_cards(&cards, true);
    assert!(products.len() <= cards.len());
    assert_eq!(products.len(), 3);
    for p in &products {
        assert_eq!(p.name, p.name.trim());
    }
}

#[test]
fn two_decimal_prices_are_stored_exactly() {
    assert_eq!(parse_price("12.3").unwrap().to_cents(), Ok(1230));
    assert_eq!(parse_price("-0.07").unwrap().to_cents(), Ok(-7));
    assert_eq!(parse_price("99").unwrap().to_cents(), Ok(9900));
}

#[test]
fn due_stays_due() {
    assert!(is_time_to_run(Some(0), 86_400, 0));
    assert!(is_time_to_run(Some(0), 86_400, 1));
    assert!(is_time_to_run(Some(0), 1_000_000, 0));
}

#[test]
fn listing_has_at_most_one_line_per_card() {
    let page = r#"<div class="product-grid">
<div class="product-grid__item"><p class="card__name">A</p><p class="card__price-per">1</p></div>
<div class="product-grid__item"><p class="card__name">B</p><p class="card__price-per">2</p></div>
</div>"#;
    let p = rimi_listing_checked(page).unwrap();
    assert_eq!(p.len(), 2);
    assert_eq!(rimi_listing(page).len(), 2);
}

#[test]
fn card_without_product_can_be_dropped() {
    let make = |cards: &[(Option<&str>, Option<&str>)]| -> Vec<CardText> {
        cards
            .iter()
            .map(|(t, p)| CardText { title: t.map(String::from), price: p.map(String::from) })
            .collect()
    };
    let with = make(&[(Some("A"), Some("1,00 €/kg")), (Some("B"), None), (Some("C"), Some("2 €/kg"))]);
    let without = make(&[(Some("A"), Some("1,00 €/kg")), (Some("C"), Some("2 €/kg"))]);
    let names = |v: Vec<beef_market::scraper::Product>| -> Vec<(String, i64)> {
        v.iter().map(|p| (p.name.clone(), p.price.to_cents().unwrap())).collect()
    };
    assert_eq!(names(products_from_cards(&with, true)), names(products_from_cards(&without, true)));
}

#[test]
fn negated_price_has_negated_cents() {
    for text in ["10.249", "0.001", "123456.789", "7"] {
        let pos = parse_price(text).unwrap().to_cents().unwrap();
        let neg = parse_price(&format!("-{}", text)).unwrap().to_cents().unwrap();
        assert_eq!(neg, -pos);
    }
}
