//! Selver: the product cards sit in the first `.ProductListing`; the unit
//! price ends in "€/kg".
use vstd::prelude::*;

use super::{
    page_products, page_readable, products_of_page, products_view, read_card_fields,
    scraped_card_fields, Product, ScrapeError,
};

verus! {

pub const LISTING_SELECTOR: &'static str = ".ProductListing";

pub const CARD_SELECTOR: &'static str = ".ProductCard";

pub const PRICE_SELECTOR: &'static str = ".ProductPrice__unit-price";

pub const TITLE_SELECTOR: &'static str = ".ProductCard__title";

/// The Selver shop, read from the page at `url`.
pub struct Selver {
    pub url: String,
}

impl Selver {
    /// The products of a Selver page: the cards of its first product listing
    /// that have a title and a price that ends in "€/kg" and parses. The page
    /// must have a product listing.
    pub fn parse_html(&self, html: &str) -> (r: Vec<Product>)
        requires
            scraped_card_fields(html@, Some(LISTING_SELECTOR@), CARD_SELECTOR@, TITLE_SELECTOR@, PRICE_SELECTOR@) is Ok,
        ensures
            page_products(html@, Some(LISTING_SELECTOR@), CARD_SELECTOR@, TITLE_SELECTOR@, PRICE_SELECTOR@, true)
                == Ok::<Seq<(Seq<char>, (i128, u32))>, ScrapeError>(products_view(r@)),
    {
        products_of_page(html, Some(LISTING_SELECTOR), CARD_SELECTOR, TITLE_SELECTOR, PRICE_SELECTOR, true)
    }

    /// The products of a page when its cards can be read (see `parse_html`);
    /// else why they cannot.
    pub fn read_page(&self, html: &str) -> (r: Result<Vec<Product>, ScrapeError>)
        ensures
            match r {
                Ok(v) => page_products(html@, Some(LISTING_SELECTOR@), CARD_SELECTOR@, TITLE_SELECTOR@, PRICE_SELECTOR@, true)
                    == Ok::<Seq<(Seq<char>, (i128, u32))>, ScrapeError>(products_view(v@)),
                Err(e) => page_products(html@, Some(LISTING_SELECTOR@), CARD_SELECTOR@, TITLE_SELECTOR@, PRICE_SELECTOR@, true)
                    == Err::<Seq<(Seq<char>, (i128, u32))>, ScrapeError>(e),
            },
    {
        if page_readable(html, Some(LISTING_SELECTOR), CARD_SELECTOR, TITLE_SELECTOR, PRICE_SELECTOR) {
            Ok(self.parse_html(html))
        } else {
            match read_card_fields(html, Some(LISTING_SELECTOR), CARD_SELECTOR, TITLE_SELECTOR, PRICE_SELECTOR) {
                Err(e) => Err(e),
                Ok(_) => {
                    assert(false);
                    Err(ScrapeError::ListingNotFound)
                },
            }
        }
    }
}

} // verus!
