//! Barbora: the page lists its products as `li` cards; the price is given per
//! kilogram and ends in "€/kg".
use vstd::prelude::*;

use super::{
    page_products, page_readable, products_of_page, products_view, read_card_fields,
    scraped_card_fields, Product, ScrapeError,
};

verus! {

/// Every `li` of the page is a candidate card.
pub const CARD_SELECTOR: &'static str = "li";

/// The last `div` of the price block holds the unit price.
pub const PRICE_SELECTOR: &'static str = r#"div[id^="fti-product-price-category-page-"] div div:last-child"#;

pub const TITLE_SELECTOR: &'static str = r#"span[id^="fti-product-title-category-page-"]"#;

/// The Barbora shop, read from the page at `url`.
pub struct Barbora {
    pub url: String,
}

impl Barbora {
    /// The products of a Barbora page: every `li` card with a title and a
    /// price that ends in "€/kg" and parses. The selectors must parse.
    pub fn parse_html(&self, html: &str) -> (r: Vec<Product>)
        requires
            scraped_card_fields(html@, None, CARD_SELECTOR@, TITLE_SELECTOR@, PRICE_SELECTOR@) is Ok,
        ensures
            page_products(html@, None, CARD_SELECTOR@, TITLE_SELECTOR@, PRICE_SELECTOR@, true)
                == Ok::<Seq<(Seq<char>, (i128, u32))>, ScrapeError>(products_view(r@)),
    {
        products_of_page(html, None, CARD_SELECTOR, TITLE_SELECTOR, PRICE_SELECTOR, true)
    }

    /// The products of a page when its cards can be read (see `parse_html`);
    /// else why they cannot.
    pub fn read_page(&self, html: &str) -> (r: Result<Vec<Product>, ScrapeError>)
        ensures
            match r {
                Ok(v) => page_products(html@, None, CARD_SELECTOR@, TITLE_SELECTOR@, PRICE_SELECTOR@, true)
                    == Ok::<Seq<(Seq<char>, (i128, u32))>, ScrapeError>(products_view(v@)),
                Err(e) => page_products(html@, None, CARD_SELECTOR@, TITLE_SELECTOR@, PRICE_SELECTOR@, true)
                    == Err::<Seq<(Seq<char>, (i128, u32))>, ScrapeError>(e),
            },
    {
        if page_readable(html, None, CARD_SELECTOR, TITLE_SELECTOR, PRICE_SELECTOR) {
            Ok(self.parse_html(html))
        } else {
            match read_card_fields(html, None, CARD_SELECTOR, TITLE_SELECTOR, PRICE_SELECTOR) {
                Err(e) => Err(e),
                Ok(_) => {
                    assert(false);
                    Err(ScrapeError::ListingNotFound)
                },
            }
        }
    }
}

} // verus!
