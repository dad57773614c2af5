use beef_market::scraper::barbora::Barbora;
use beef_market::scraper::rimi::Rimi;
use beef_market::scraper::selver::Selver;
use beef_market::scraper::{
    price_decimal_string, product_from_card, products_from_cards, CardText, Product, ScrapeError,
    checked_scraper_from_row, scraper_from_row, ScrapeImpl, ShopRowError,
};

fn card(title: Option<&str>, price: Option<&str>) -> CardText {
    CardText { title: title.map(String::from), price: price.map(String::from) }
}

fn names_and_cents(products: &[Product]) -> Vec<(String, i64)> {
    products.iter().map(|p| (p.name.clone(), p.price.to_cents().unwrap())).collect()
}

#[test]
fn per_kg_price_text_is_normalised() {
    assert_eq!(price_decimal_string("  24,99 €/kg", true), Some("24.99".to_string()));
    assert_eq!(price_decimal_string("\n 8,49\n 1,20 \n€/kg", true), Some("8.49".to_string()));
    assert_eq!(price_decimal_string("24,99 € / kg", true), None);
    assert_eq!(price_decimal_string("24,99", true), None);
}

#[test]
fn plain_price_text_is_normalised() {
    assert_eq!(price_decimal_string("\n  12,99 \n 3 tk", false), Some("12.99".to_string()));
    assert_eq!(price_decimal_string("7", false), Some("7".to_string()));
    assert_eq!(price_decimal_string("   ", false), Some("".to_string()));
}

#[test]
fn card_becomes_product() {
    let p = product_from_card(&card(Some("\n  Veise sisefilee \n"), Some("24,99 €/kg")), true).unwrap();
    assert_eq!(p.name, "Veise sisefilee");
    assert_eq!(p.price.mantissa(), 2499);
    assert_eq!(p.price.scale(), 2);
}

#[test]
fn cards_without_title_or_parsable_price_are_skipped() {
    let cards = vec![
        card(Some("Hakkliha"), Some("8,49 €/kg")),
        card(None, Some("9,99 €/kg")),
        card(Some("Ribi"), None),
        card(Some("Antrekoot"), Some("hind puudub €/kg")),
        card(Some("Küljesteik"), Some("19,90 €/kg")),
    ];
    let products = products_from_cards(&cards, true);
    assert_eq!(
        names_and_cents(&products),
        vec![("Hakkliha".to_string(), 849), ("Küljesteik".to_string(), 1990)]
    );
}

const BARBORA_PAGE: &str = r#"<html><body><ul>
<li><span id="fti-product-title-category-page-1">
  Veise sisefilee, 1 kg
</span><div id="fti-product-price-category-page-1"><div><div>39,99 €</div><div>39,99 €/kg</div></div></div></li>
<li><span id="fti-product-title-category-page-2">Veisehakkliha</span></li>
<li><span id="fti-product-title-category-page-3">Veise antrekoot</span><div id="fti-product-price-category-page-3"><div><div>12 €</div><div>48,00 €/kg</div></div></div></li>
</ul></body></html>"#;

#[test]
fn barbora_page_products() {
    let b = Barbora { url: "https://barbora.ee/".to_string() };
    let products = b.parse_html(BARBORA_PAGE);
    assert_eq!(
        names_and_cents(&products),
        vec![("Veise sisefilee, 1 kg".to_string(), 3999), ("Veise antrekoot".to_string(), 4800)]
    );
}

const RIMI_PAGE: &str = r#"<html><body>
<div class="product-grid">
  <div class="product-grid__item"><p class="card__name">Veise sisefilee</p><p class="card__price-per">
    35,99
    €/kg</p></div>
  <div class="product-grid__item"><p class="card__name">Veisehakkliha</p></div>
</div>
<div class="product-grid">
  <div class="product-grid__item"><p class="card__name">Second grid</p><p class="card__price-per">1,00</p></div>
</div>
</body></html>"#;

#[test]
fn rimi_page_products() {
    let r = Rimi { url: "https://rimi.ee/".to_string() };
    let products = r.parse_html(RIMI_PAGE);
    assert_eq!(names_and_cents(&products), vec![("Veise sisefilee".to_string(), 3599)]);
}

#[test]
fn rimi_page_without_grid() {
    let r = Rimi { url: "https://rimi.ee/".to_string() };
    assert_eq!(r.read_page("<html><body><p>hello</p></body></html>").err(), Some(ScrapeError::ListingNotFound));
}

const SELVER_PAGE: &str = r#"<html><body><div class="ProductListing">
<div class="ProductCard"><a class="ProductCard__title">Veise välisfilee</a><span class="ProductPrice__unit-price">29,95 €/kg</span></div>
<div class="ProductCard"><a class="ProductCard__title">Veise pada</a><span class="ProductPrice__unit-price">12,50 €/tk</span></div>
</div></body></html>"#;

#[test]
fn selver_page_products() {
    let s = Selver { url: "https://www.selver.ee/".to_string() };
    let products = s.parse_html(SELVER_PAGE);
    assert_eq!(names_and_cents(&products), vec![("Veise välisfilee".to_string(), 2995)]);
}

#[test]
fn scrape_impl_names() {
    assert_eq!(ScrapeImpl::from_name("rimi"), Some(ScrapeImpl::Rimi));
    assert_eq!(ScrapeImpl::from_name("selver"), Some(ScrapeImpl::Selver));
    assert_eq!(ScrapeImpl::from_name("barbora"), Some(ScrapeImpl::Barbora));
    assert_eq!(ScrapeImpl::from_name("Rimi"), None);
    assert_eq!(ScrapeImpl::from_name(""), None);
}

#[test]
fn scraper_from_shop_row() {
    let s = scraper_from_row(3, "Selver".to_string(), "https://www.selver.ee", "selver");
    assert_eq!(s.id, 3);
    assert_eq!(s.name, "Selver");
    assert_eq!(s.url, "https://www.selver.ee/");
    assert_eq!(s.kind, ScrapeImpl::Selver);
    assert_eq!(
        checked_scraper_from_row(4, "X".to_string(), "https://x.ee/", "prisma").err(),
        Some(ShopRowError::UnknownImpl)
    );
    assert_eq!(
        checked_scraper_from_row(5, "X".to_string(), "not a url", "prisma").err(),
        Some(ShopRowError::InvalidUrl)
    );
    assert_eq!(
        checked_scraper_from_row(6, "X".to_string(), "not a url", "rimi").err(),
        Some(ShopRowError::InvalidUrl)
    );
    let products = s.parse_html(SELVER_PAGE);
    assert_eq!(products.len(), 1);
    let checked = checked_scraper_from_row(3, "Selver".to_string(), "https://www.selver.ee", "selver");
    let c = checked.ok().unwrap();
    assert_eq!((c.id, c.name.as_str(), c.url.as_str(), c.kind), (3, "Selver", "https://www.selver.ee/", ScrapeImpl::Selver));
    assert_eq!(c.read_page(SELVER_PAGE).unwrap().len(), 1);
    assert_eq!(c.read_page("<p>no listing</p>").err(), Some(ScrapeError::ListingNotFound));
}
