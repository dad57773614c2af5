use beef_market::listing::{
    barbora_listing, barbora_listing_checked, barbora_listing_url, card_listing_line,
    rimi_listing, rimi_listing_checked, rimi_listing_url, selver_listing, selver_listing_checked,
    selver_listing_url, ListingError, ListingLine, ListingStyle,
};
use beef_market::scraper::{CardFields, FieldText};

fn lines(p: &[ListingLine]) -> Vec<(String, String)> {
    p.iter().map(|l| (l.name.clone(), l.unit_price.clone())).collect()
}

#[test]
fn barbora_listing_skips_cards_without_price() {
    let page = r#"<ul>
<li><span id="fti-product-title-category-page-1"> Veise sisefilee </span><div id="fti-product-price-category-page-1"><div><div>x</div><div> 39,99
 €/kg </div></div></div></li>
<li>no price here</li>
</ul>"#;
    let p = barbora_listing_checked(page).unwrap();
    assert_eq!(lines(&p), vec![("Veise sisefilee".to_string(), "39,99 €/kg".to_string())]);
    assert_eq!(lines(&barbora_listing(page)), lines(&p));
}

#[test]
fn barbora_listing_refuses_card_without_title() {
    let page = r#"<ul>
<li><span id="fti-product-title-category-page-1">A</span><div id="fti-product-price-category-page-1"><div><div>1</div></div></div></li>
<li><div id="fti-product-price-category-page-2"><div><div>2</div></div></div></li>
<li><span id="fti-product-title-category-page-3">C</span><div id="fti-product-price-category-page-3"><div><div>3</div></div></div></li>
</ul>"#;
    assert!(barbora_listing_checked(page).is_none());
}

#[test]
fn rimi_listing_needs_a_price_on_every_card() {
    let page = r#"<div class="product-grid">
<div class="product-grid__item"><p class="card__name">A</p><p class="card__price-per"> 2,50
 €/kg</p></div>
<div class="product-grid__item"><p class="card__name">B</p></div>
</div>"#;
    assert!(rimi_listing_checked(page).is_none());
    let complete = r#"<div class="product-grid">
<div class="product-grid__item"><p class="card__name">A</p><p class="card__price-per"> 2,50
 €/kg</p></div>
</div>"#;
    assert_eq!(lines(&rimi_listing(complete)), vec![("A".to_string(), "2,50 €/kg".to_string())]);
    assert!(rimi_listing_checked("<p>no grid</p>").is_none());
}

#[test]
fn selver_listing_shows_price_as_is() {
    let page = r#"<div class="ProductListing"><div class="ProductCard"><span class="ProductCard__title">A</span><span class="ProductPrice__unit-price"> 9,99 €/kg </span></div></div>"#;
    let p = selver_listing_checked(page).unwrap();
    assert_eq!(lines(&p), vec![("A".to_string(), " 9,99 €/kg ".to_string())]);
    assert_eq!(lines(&selver_listing(page)), lines(&p));
}

#[test]
fn card_listing_line_errors() {
    let style = ListingStyle { skip_without_price: false, join_price_lines: true };
    let text = |t: &str| FieldText::Text(t.to_string());
    let err = |title: FieldText, price: FieldText| {
        card_listing_line(&CardFields { title, price }, style).err()
    };
    assert_eq!(err(text("A"), FieldText::Missing), Some(ListingError::MissingPrice));
    assert_eq!(err(FieldText::Missing, text("1")), Some(ListingError::MissingTitle));
    assert_eq!(err(FieldText::Empty, text("1")), Some(ListingError::MissingTitleText));
    assert_eq!(err(text("A"), FieldText::Empty), Some(ListingError::MissingPriceText));
    let skip = ListingStyle { skip_without_price: true, join_price_lines: true };
    let r = card_listing_line(&CardFields { title: text("A"), price: FieldText::Missing }, skip);
    assert!(matches!(r, Ok(None)));
}

#[test]
fn listing_urls_join_path_to_base() {
    assert_eq!(
        barbora_listing_url().unwrap(),
        "https://barbora.ee/liha-kala-valmistoit/liha/veis-ja-muu-varske-liha"
    );
    assert_eq!(
        rimi_listing_url().unwrap(),
        "https://www.rimi.ee/epood/ee/tooted/liha--ja-kalatooted/veise--lamba--ja-ulukiliha/c/SH-8-21"
    );
    assert_eq!(
        selver_listing_url().unwrap(),
        "https://www.selver.ee/liha-ja-kalatooted/veise-lamba-ja-ulukiliha?product_segment=4725"
    );
}
