//! Turning a shop's product listing page into products with a name and a
//! price per kilogram. The page itself is fetched elsewhere; what is here
//! reads its HTML, keeps the cards that have both a title and a price, and
//! normalises the price text before parsing it as a decimal.
use vstd::prelude::*;

use ::scraper::{ElementRef, Html, Selector};

use crate::price::{decimal_from_str, parse_price, PriceEur};
use crate::text::{
    first_index_of, trim_end, trim_start, before_first, before_first_chars, chars_of, is_white_space, law_replace_char_removes,
    law_trim_idempotent, lemma_trim_has_no_white_space_at_ends, replace_char, replace_char_chars,
    string_of, strip_suffix, strip_suffix_chars, trim, trim_chars, trim_str,
};

pub mod barbora;
pub mod rimi;
pub mod selver;

verus! {

/// A product as a shop lists it.
#[derive(Debug)]
pub struct Product {
    pub name: String,
    pub price: PriceEur,
}

impl View for Product {
    type V = (Seq<char>, (i128, u32));

    open spec fn view(&self) -> (Seq<char>, (i128, u32)) {
        (self.name@, self.price@)
    }
}

/// The two texts read from one product card of a page: the first text of
/// the first title element and the first text of the first price element.
#[derive(Debug)]
pub struct CardText {
    pub title: Option<String>,
    pub price: Option<String>,
}

pub open spec fn opt_view(o: Option<String>) -> Option<Seq<char>> {
    match o {
        Some(s) => Some(s@),
        None => None,
    }
}

pub open spec fn opt_str_view(o: Option<&str>) -> Option<Seq<char>> {
    match o {
        Some(s) => Some(s@),
        None => None,
    }
}

impl View for CardText {
    type V = (Option<Seq<char>>, Option<Seq<char>>);

    open spec fn view(&self) -> (Option<Seq<char>>, Option<Seq<char>>) {
        (opt_view(self.title), opt_view(self.price))
    }
}

pub open spec fn cards_view(cards: Seq<CardText>) -> Seq<(Option<Seq<char>>, Option<Seq<char>>)> {
    cards.map_values(|c: CardText| c@)
}

pub open spec fn products_view(products: Seq<Product>) -> Seq<(Seq<char>, (i128, u32))> {
    products.map_values(|p: Product| p@)
}

/// Why a page could not be read.
#[derive(Clone, Copy, Debug, PartialEq, Eq, Structural)]
pub enum ScrapeError {
    /// A CSS selector did not parse.
    InvalidSelector,
    /// The element that holds the product cards is not on the page.
    ListingNotFound,
}

/// What a card holds for one selector: no matching element, a first
/// matching element without any text, or the first text of that element.
#[derive(Debug)]
pub enum FieldText {
    Missing,
    Empty,
    Text(String),
}

pub open spec fn field_view(f: FieldText) -> Option<Option<Seq<char>>> {
    match f {
        FieldText::Missing => None,
        FieldText::Empty => Some(None),
        FieldText::Text(t) => Some(Some(t@)),
    }
}

/// The title field and the price field of one card.
#[derive(Debug)]
pub struct CardFields {
    pub title: FieldText,
    pub price: FieldText,
}

impl View for CardFields {
    type V = (Option<Option<Seq<char>>>, Option<Option<Seq<char>>>);

    open spec fn view(&self) -> (Option<Option<Seq<char>>>, Option<Option<Seq<char>>>) {
        (field_view(self.title), field_view(self.price))
    }
}

pub open spec fn fields_view(cards: Seq<CardFields>) -> Seq<
    (Option<Option<Seq<char>>>, Option<Option<Seq<char>>>),
> {
    cards.map_values(|c: CardFields| c@)
}

/// The first text of a field, if it has one.
pub open spec fn first_text(f: Option<Option<Seq<char>>>) -> Option<Seq<char>> {
    match f {
        Some(Some(t)) => Some(t),
        _ => None,
    }
}

/// The texts of a card: the first text of its title and of its price.
pub open spec fn card_text_of(c: (Option<Option<Seq<char>>>, Option<Option<Seq<char>>>)) -> (
    Option<Seq<char>>,
    Option<Seq<char>>,
) {
    (first_text(c.0), first_text(c.1))
}

pub open spec fn card_texts_of(
    cards: Seq<(Option<Option<Seq<char>>>, Option<Option<Seq<char>>>)>,
) -> Seq<(Option<Seq<char>>, Option<Seq<char>>)> {
    cards.map_values(|c: (Option<Option<Seq<char>>>, Option<Option<Seq<char>>>)| card_text_of(c))
}

/// The texts of the elements that one selector matches inside a card: for
/// each matching element, in the order in which `ElementRef::select` finds
/// them, its text nodes in the order in which `ElementRef::text` gives them.
pub open spec fn matches_view(m: Seq<Vec<String>>) -> Seq<Seq<Seq<char>>> {
    m.map_values(|e: Vec<String>| e@.map_values(|t: String| t@))
}

/// A card's field, from the texts of the elements its selector matches: no
/// match, a first match without any text, or the first text of the first
/// match.
pub open spec fn first_match_text(m: Seq<Seq<Seq<char>>>) -> Option<Option<Seq<char>>> {
    if m.len() == 0 {
        None
    } else if m[0].len() == 0 {
        Some(None)
    } else {
        Some(Some(m[0][0]))
    }
}

/// The title and price fields of cards, from what their selectors match.
pub open spec fn card_fields_of(cards: Seq<(Seq<Seq<Seq<char>>>, Seq<Seq<Seq<char>>>)>) -> Seq<
    (Option<Option<Seq<char>>>, Option<Option<Seq<char>>>),
> {
    cards.map_values(
        |c: (Seq<Seq<Seq<char>>>, Seq<Seq<Seq<char>>>)| (first_match_text(c.0), first_match_text(c.1)),
    )
}

/// What reading the cards of a whole document gives: for each element
/// matching `card`, in the order in which `Html::select` walks the parsed
/// document's node tree, the texts of the elements matching `title` inside
/// it and those of the elements matching `price` (see `matches_view`).
pub uninterp spec fn document_card_matches(
    html: Seq<char>,
    card: Seq<char>,
    title: Seq<char>,
    price: Seq<char>,
) -> Result<Seq<(Seq<Seq<Seq<char>>>, Seq<Seq<Seq<char>>>)>, ScrapeError>;

/// What reading the cards inside the first element matching `listing` gives:
/// `None` when no element matches `listing`, else, for each element inside
/// it that matches `card`, the texts of its title and price matches.
pub uninterp spec fn listing_card_matches(
    html: Seq<char>,
    listing: Seq<char>,
    card: Seq<char>,
    title: Seq<char>,
    price: Seq<char>,
) -> Result<Option<Seq<(Seq<Seq<Seq<char>>>, Seq<Seq<Seq<char>>>)>>, ScrapeError>;

/// What reading the cards of a page gives: the fields of the cards of the
/// whole document, or, when a `listing` selector is given, of those inside
/// the first listing element; a page without such an element is
/// `ListingNotFound`.
pub open spec fn scraped_card_fields(
    html: Seq<char>,
    listing: Option<Seq<char>>,
    card: Seq<char>,
    title: Seq<char>,
    price: Seq<char>,
) -> Result<Seq<(Option<Option<Seq<char>>>, Option<Option<Seq<char>>>)>, ScrapeError> {
    match listing {
        None => match document_card_matches(html, card, title, price) {
            Ok(c) => Ok(card_fields_of(c)),
            Err(e) => Err(e),
        },
        Some(l) => match listing_card_matches(html, l, card, title, price) {
            Ok(Some(c)) => Ok(card_fields_of(c)),
            Ok(None) => Err(ScrapeError::ListingNotFound),
            Err(e) => Err(e),
        },
    }
}

pub open spec fn raw_matches_view(v: Seq<(Vec<Vec<String>>, Vec<Vec<String>>)>) -> Seq<
    (Seq<Seq<Seq<char>>>, Seq<Seq<Seq<char>>>),
> {
    v.map_values(
        |c: (Vec<Vec<String>>, Vec<Vec<String>>)| (matches_view(c.0@), matches_view(c.1@)),
    )
}

/// Reads the cards of a whole document with the `scraper` crate:
/// `Selector::parse` of each selector (its error becomes `InvalidSelector`),
/// `Html::parse_document`, `Html::select` of the cards, and for each card
/// `ElementRef::select` of its title and of its price, with the `text()` of
/// each match. The contract names the result, a function of the page and the
/// selectors alone; what the HTML parser and the selector engine do is not
/// stated.
#[verifier::external_body]
fn read_document_matches(html: &str, card: &str, title: &str, price: &str) -> (r: Result<
    Vec<(Vec<Vec<String>>, Vec<Vec<String>>)>,
    ScrapeError,
>)
    ensures
        match r {
            Ok(v) => document_card_matches(html@, card@, title@, price@) == Ok::<
                Seq<(Seq<Seq<Seq<char>>>, Seq<Seq<Seq<char>>>)>,
                ScrapeError,
            >(raw_matches_view(v@)),
            Err(e) => document_card_matches(html@, card@, title@, price@) == Err::<
                Seq<(Seq<Seq<Seq<char>>>, Seq<Seq<Seq<char>>>)>,
                ScrapeError,
            >(e),
        },
{
    let sel = |c| Selector::parse(c).map_err(|_| ScrapeError::InvalidSelector);
    let (card, title, price) = (sel(card)?, sel(title)?, sel(price)?);
    let texts = |e: ElementRef| -> Vec<String> { e.text().map(String::from).collect() };
    let field = |e: ElementRef, s| -> Vec<Vec<String>> { e.select(s).map(texts).collect() };
    let doc = Html::parse_document(html);
    Ok(doc.select(&card).map(|e| (field(e, &title), field(e, &price))).collect())
}

/// Reads the cards inside the first listing element of a page with the
/// `scraper` crate: as `read_document_matches`, but the cards are selected
/// with `ElementRef::select` inside the first element that `Html::select`
/// finds for `listing`; `None` when it finds none. The contract names the
/// result.
#[verifier::external_body]
fn read_listing_matches(html: &str, listing: &str, card: &str, title: &str, price: &str) -> (r:
    Result<Option<Vec<(Vec<Vec<String>>, Vec<Vec<String>>)>>, ScrapeError>)
    ensures
        match r {
            Ok(Some(v)) => listing_card_matches(html@, listing@, card@, title@, price@) == Ok::<
                Option<Seq<(Seq<Seq<Seq<char>>>, Seq<Seq<Seq<char>>>)>>,
                ScrapeError,
            >(Some(raw_matches_view(v@))),
            Ok(None) => listing_card_matches(html@, listing@, card@, title@, price@) == Ok::<
                Option<Seq<(Seq<Seq<Seq<char>>>, Seq<Seq<Seq<char>>>)>>,
                ScrapeError,
            >(None),
            Err(e) => listing_card_matches(html@, listing@, card@, title@, price@) == Err::<
                Option<Seq<(Seq<Seq<Seq<char>>>, Seq<Seq<Seq<char>>>)>>,
                ScrapeError,
            >(e),
        },
{
    let sel = |c| Selector::parse(c).map_err(|_| ScrapeError::InvalidSelector);
    let (listing, card, title, price) = (sel(listing)?, sel(card)?, sel(title)?, sel(price)?);
    let texts = |e: ElementRef| -> Vec<String> { e.text().map(String::from).collect() };
    let field = |e: ElementRef, s| -> Vec<Vec<String>> { e.select(s).map(texts).collect() };
    let doc = Html::parse_document(html);
    let found = doc.select(&listing).next();
    Ok(found.map(|l| l.select(&card).map(|e| (field(e, &title), field(e, &price))).collect()))
}

/// The field a card's selector gives (see `first_match_text`).
fn field_text(m: Vec<Vec<String>>) -> (r: FieldText)
    ensures
        field_view(r) == first_match_text(matches_view(m@)),
{
    let mut m = m;
    if m.len() == 0 {
        return FieldText::Missing;
    }
    let ghost whole = m@;
    let mut first = m.remove(0);
    assert(matches_view(whole)[0] == first@.map_values(|t: String| t@));
    if first.len() == 0 {
        FieldText::Empty
    } else {
        let ghost texts = first@;
        let t = first.remove(0);
        assert(texts.map_values(|t: String| t@)[0] == t@);
        FieldText::Text(t)
    }
}

/// Reads the title and price fields of the product cards of a page (see
/// `scraped_card_fields`).
pub(crate) fn read_card_fields(html: &str, listing: Option<&str>, card: &str, title: &str, price: &str) -> (r:
    Result<Vec<CardFields>, ScrapeError>)
    ensures
        match r {
            Ok(v) => scraped_card_fields(html@, opt_str_view(listing), card@, title@, price@) == Ok::<
                Seq<(Option<Option<Seq<char>>>, Option<Option<Seq<char>>>)>,
                ScrapeError,
            >(fields_view(v@)),
            Err(e) => scraped_card_fields(html@, opt_str_view(listing), card@, title@, price@)
                == Err::<Seq<(Option<Option<Seq<char>>>, Option<Option<Seq<char>>>)>, ScrapeError>(e),
        },
{
    let raw = match listing {
        None => match read_document_matches(html, card, title, price) {
            Ok(v) => v,
            Err(e) => return Err(e),
        },
        Some(l) => match read_listing_matches(html, l, card, title, price) {
            Ok(Some(v)) => v,
            Ok(None) => return Err(ScrapeError::ListingNotFound),
            Err(e) => return Err(e),
        },
    };
    let ghost raw_view = raw_matches_view(raw@);
    let ghost fields = card_fields_of(raw_view);
    let mut raw = raw;
    let mut out: Vec<CardFields> = Vec::new();
    let mut k: usize = 0;
    let n = raw.len();
    assert(fields.take(0) =~= Seq::<(Option<Option<Seq<char>>>, Option<Option<Seq<char>>>)>::empty());
    while k < n
        invariant
            0 <= k <= n,
            raw.len() == n - k,
            raw_view.len() == n,
            fields == card_fields_of(raw_view),
            raw_matches_view(raw@) == raw_view.skip(k as int),
            fields_view(out@) == fields.take(k as int),
        decreases n - k,
    {
        let ghost before = out@;
        let ghost rest = raw@;
        let (t, p) = raw.remove(0);
        assert(raw_matches_view(raw@) =~= raw_matches_view(rest).drop_first());
        assert((t, p) == rest[0]);
        assert(raw_view[k as int] == raw_matches_view(rest)[0]);
        let c = CardFields { title: field_text(t), price: field_text(p) };
        assert(c@ == fields[k as int]);
        out.push(c);
        assert(fields_view(out@) =~= fields_view(before).push(c@));
        assert(fields.take(k + 1) =~= fields.take(k as int).push(fields[k as int]));
        k += 1;
    }
    assert(fields.take(n as int) =~= fields);
    Ok(out)
}

/// The first text of a field.
pub fn field_first_text(f: &FieldText) -> (r: Option<String>)
    ensures
        opt_view(r) == first_text(field_view(*f)),
{
    match f {
        FieldText::Text(t) => Some(t.clone()),
        _ => None,
    }
}

/// The texts of the cards: the first text of each title and price.
pub fn card_texts(cards: &Vec<CardFields>) -> (r: Vec<CardText>)
    ensures
        cards_view(r@) == card_texts_of(fields_view(cards@)),
{
    let mut out: Vec<CardText> = Vec::new();
    let mut k: usize = 0;
    while k < cards.len()
        invariant
            0 <= k <= cards.len(),
            cards_view(out@) == card_texts_of(fields_view(cards@)).take(k as int),
        decreases cards.len() - k,
    {
        let c = CardText {
            title: field_first_text(&cards[k].title),
            price: field_first_text(&cards[k].price),
        };
        let ghost before = out@;
        out.push(c);
        assert(fields_view(cards@)[k as int] == cards@[k as int]@);
        assert(c@ == card_text_of(cards@[k as int]@));
        assert(cards_view(out@) =~= cards_view(before).push(c@));
        assert(cards_view(out@) =~= card_texts_of(fields_view(cards@)).take(k + 1));
        k += 1;
    }
    assert(cards_view(out@) =~= card_texts_of(fields_view(cards@)));
    out
}

/// The unit the per-kilogram prices of some shops end with.
pub open spec fn per_kg_suffix() -> Seq<char> {
    seq!['€', '/', 'k', 'g']
}

/// The decimal text hidden in a price text: with `per_kg`, the text must end
/// in "€/kg", which is cut off; then the text is trimmed, only its first line
/// is kept and trimmed again, and decimal commas become points.
pub open spec fn price_decimal_text(text: Seq<char>, per_kg: bool) -> Option<Seq<char>> {
    let body = if per_kg {
        strip_suffix(text, per_kg_suffix())
    } else {
        Some(text)
    };
    match body {
        Some(b) => Some(replace_char(trim(before_first(trim(b), '\n')), ',', '.')),
        None => None,
    }
}

/// The product a card stands for: it needs a title and a price whose decimal
/// text parses; its name is the trimmed title (line breaks at its ends are
/// removed first, which `law_newlines_then_trim` shows changes nothing).
pub open spec fn card_product(card: (Option<Seq<char>>, Option<Seq<char>>), per_kg: bool) -> Option<
    (Seq<char>, (i128, u32)),
> {
    match card {
        (Some(t), Some(p)) => match price_decimal_text(p, per_kg) {
            Some(d) => match decimal_from_str(d) {
                Some(v) => Some((trim(t), v)),
                None => None,
            },
            None => None,
        },
        _ => None,
    }
}

/// The products of a list of cards, in card order, skipping the cards that
/// give none.
pub open spec fn card_products(
    cards: Seq<(Option<Seq<char>>, Option<Seq<char>>)>,
    per_kg: bool,
) -> Seq<(Seq<char>, (i128, u32))>
    decreases cards.len(),
{
    if cards.len() == 0 {
        Seq::empty()
    } else {
        let rest = card_products(cards.drop_last(), per_kg);
        match card_product(cards.last(), per_kg) {
            Some(p) => rest.push(p),
            None => rest,
        }
    }
}

/// The products of a page: its cards read with the given selectors, then
/// turned into products.
pub open spec fn page_products(
    html: Seq<char>,
    listing: Option<Seq<char>>,
    card: Seq<char>,
    title: Seq<char>,
    price: Seq<char>,
    per_kg: bool,
) -> Result<Seq<(Seq<char>, (i128, u32))>, ScrapeError> {
    match scraped_card_fields(html, listing, card, title, price) {
        Ok(cards) => Ok(card_products(card_texts_of(cards), per_kg)),
        Err(e) => Err(e),
    }
}

/// The decimal text of a price never holds a comma: decimal commas become
/// points.
pub proof fn law_price_text_has_no_comma(text: Seq<char>, per_kg: bool)
    ensures
        price_decimal_text(text, per_kg) matches Some(d) ==> !d.contains(','),
{
    if per_kg {
        if let Some(b) = strip_suffix(text, per_kg_suffix()) {
            law_replace_char_removes(trim(before_first(trim(b), '\n')), ',', '.');
        }
    } else {
        law_replace_char_removes(trim(before_first(trim(text), '\n')), ',', '.');
    }
}

/// A page gives at most one product per card, and every product name is
/// trimmed: it has no white space at either end.
pub proof fn law_products_trimmed_and_bounded(
    cards: Seq<(Option<Seq<char>>, Option<Seq<char>>)>,
    per_kg: bool,
)
    ensures
        card_products(cards, per_kg).len() <= cards.len(),
        forall|i: int|
            0 <= i < card_products(cards, per_kg).len() ==> {
                let name = #[trigger] card_products(cards, per_kg)[i].0;
                &&& name == trim(name)
                &&& name.len() > 0 ==> !is_white_space(name[0]) && !is_white_space(name.last())
            },
    decreases cards.len(),
{
    if cards.len() > 0 {
        law_products_trimmed_and_bounded(cards.drop_last(), per_kg);
        let rest = card_products(cards.drop_last(), per_kg);
        match card_product(cards.last(), per_kg) {
            Some(p) => {
                let t = cards.last().0->Some_0;
                law_trim_idempotent(t);
                lemma_trim_has_no_white_space_at_ends(t);
                let all = rest.push(p);
                assert forall|i: int| 0 <= i < all.len() implies {
                    let name = #[trigger] all[i].0;
                    &&& name == trim(name)
                    &&& name.len() > 0 ==> !is_white_space(name[0]) && !is_white_space(name.last())
                } by {
                    if i < rest.len() {
                        assert(all[i] == rest[i]);
                    }
                }
            },
            None => {},
        }
    }
}

/// A card that gives no product can be left out: the products of the other
/// cards are the same, in the same order.
pub proof fn law_productless_card_can_be_dropped(
    cards: Seq<(Option<Seq<char>>, Option<Seq<char>>)>,
    i: int,
    per_kg: bool,
)
    requires
        0 <= i < cards.len(),
        card_product(cards[i], per_kg) is None,
    ensures
        card_products(cards.remove(i), per_kg) == card_products(cards, per_kg),
    decreases cards.len(),
{
    if i == cards.len() - 1 {
        assert(cards.remove(i) =~= cards.drop_last());
    } else {
        let shorter = cards.remove(i);
        assert(shorter.drop_last() =~= cards.drop_last().remove(i));
        assert(shorter.last() == cards.last());
        assert(cards.drop_last()[i] == cards[i]);
        law_productless_card_can_be_dropped(cards.drop_last(), i, per_kg);
    }
}

/// Normalises a price text to the decimal number it holds (see
/// `price_decimal_text`); `None` when a per-kilogram price lacks its unit.
pub fn price_decimal_string(text: &str, per_kg: bool) -> (r: Option<String>)
    ensures
        opt_view(r) == price_decimal_text(text@, per_kg),
{
    let chars = chars_of(text);
    let body = if per_kg {
        let suffix: Vec<char> = vec!['€', '/', 'k', 'g'];
        assert(suffix@ =~= per_kg_suffix());
        strip_suffix_chars(&chars, &suffix)
    } else {
        Some(chars)
    };
    match body {
        Some(b) => {
            let t1 = trim_chars(&b);
            let line = before_first_chars(&t1, '\n');
            let t2 = trim_chars(&line);
            let d = replace_char_chars(&t2, ',', '.');
            Some(string_of(&d))
        },
        None => None,
    }
}

/// The product one card stands for, if any (see `card_product`).
pub fn product_from_card(card: &CardText, per_kg: bool) -> (r: Option<Product>)
    ensures
        match r {
            Some(p) => card_product(card@, per_kg) == Some(p@),
            None => card_product(card@, per_kg) is None,
        },
{
    match (&card.title, &card.price) {
        (Some(t), Some(p)) => match price_decimal_string(p.as_str(), per_kg) {
            Some(d) => match parse_price(d.as_str()) {
                Some(price) => Some(Product { name: trim_str(t.as_str()), price }),
                None => None,
            },
            None => None,
        },
        _ => None,
    }
}

/// The products of a list of cards, in card order: the cards that lack a
/// title or a price, or whose price does not parse, are skipped.
pub fn products_from_cards(cards: &Vec<CardText>, per_kg: bool) -> (r: Vec<Product>)
    ensures
        products_view(r@) == card_products(cards_view(cards@), per_kg),
{
    let mut out: Vec<Product> = Vec::new();
    let mut k: usize = 0;
    while k < cards.len()
        invariant
            0 <= k <= cards.len(),
            products_view(out@) == card_products(cards_view(cards@.take(k as int)), per_kg),
        decreases cards.len() - k,
    {
        let ghost before = out@;
        let found = product_from_card(&cards[k], per_kg);
        proof {
            let prefix = cards_view(cards@.take(k + 1));
            assert(prefix.drop_last() =~= cards_view(cards@.take(k as int)));
            assert(prefix.last() == cards@[k as int]@);
        }
        match found {
            Some(p) => {
                out.push(p);
                assert(products_view(out@) =~= products_view(before).push(p@));
            },
            None => {},
        }
        k += 1;
    }
    assert(cards@.take(cards.len() as int) =~= cards@);
    out
}

/// Whether the cards of a page can be read with the given selectors: every
/// selector parses and, when a listing selector is given, the page has such
/// an element.
pub fn page_readable(html: &str, listing: Option<&str>, card: &str, title: &str, price: &str) -> (b:
    bool)
    ensures
        b == scraped_card_fields(html@, opt_str_view(listing), card@, title@, price@) is Ok,
{
    read_card_fields(html, listing, card, title, price).is_ok()
}

/// Reads the products of a page whose cards can be read: the cards found
/// with the given selectors, turned into products by `products_from_cards`.
pub fn products_of_page(
    html: &str,
    listing: Option<&str>,
    card: &str,
    title: &str,
    price: &str,
    per_kg: bool,
) -> (r: Vec<Product>)
    requires
        scraped_card_fields(html@, opt_str_view(listing), card@, title@, price@) is Ok,
    ensures
        page_products(html@, opt_str_view(listing), card@, title@, price@, per_kg) == Ok::<
            Seq<(Seq<char>, (i128, u32))>,
            ScrapeError,
        >(products_view(r@)),
{
    match read_card_fields(html, listing, card, title, price) {
        Ok(fields) => {
            let cards = card_texts(&fields);
            products_from_cards(&cards, per_kg)
        },
        Err(e) => {
            assert(false);
            Vec::new()
        },
    }
}

/// The page readers a shop can be registered with.
#[derive(Clone, Copy, Debug, PartialEq, Eq, Structural)]
pub enum ScrapeImpl {
    Rimi,
    Selver,
    Barbora,
}

/// The reader a shop's `scrape_impl` column names: "rimi", "selver" or
/// "barbora"; any other name is unknown.
pub open spec fn scrape_impl_named(name: Seq<char>) -> Option<ScrapeImpl> {
    if name == seq!['r', 'i', 'm', 'i'] {
        Some(ScrapeImpl::Rimi)
    } else if name == seq!['s', 'e', 'l', 'v', 'e', 'r'] {
        Some(ScrapeImpl::Selver)
    } else if name == seq!['b', 'a', 'r', 'b', 'o', 'r', 'a'] {
        Some(ScrapeImpl::Barbora)
    } else {
        None
    }
}

/// Whether two char sequences are equal.
fn chars_equal(a: &Vec<char>, b: &Vec<char>) -> (r: bool)
    ensures
        r == (a@ == b@),
{
    if a.len() != b.len() {
        return false;
    }
    let mut k: usize = 0;
    while k < a.len()
        invariant
            0 <= k <= a.len(),
            a.len() == b.len(),
            forall|q: int| 0 <= q < k ==> a@[q] == b@[q],
        decreases a.len() - k,
    {
        if a[k] != b[k] {
            return false;
        }
        k += 1;
    }
    assert(a@ =~= b@);
    true
}

impl ScrapeImpl {
    /// The reader named by a shop's `scrape_impl` column, if it is known.
    pub fn from_name(name: &str) -> (r: Option<ScrapeImpl>)
        ensures
            r == scrape_impl_named(name@),
    {
        let chars = chars_of(name);
        let rimi: Vec<char> = vec!['r', 'i', 'm', 'i'];
        let selver: Vec<char> = vec!['s', 'e', 'l', 'v', 'e', 'r'];
        let barbora: Vec<char> = vec!['b', 'a', 'r', 'b', 'o', 'r', 'a'];
        assert(rimi@ =~= seq!['r', 'i', 'm', 'i']);
        assert(selver@ =~= seq!['s', 'e', 'l', 'v', 'e', 'r']);
        assert(barbora@ =~= seq!['b', 'a', 'r', 'b', 'o', 'r', 'a']);
        if chars_equal(&chars, &rimi) {
            Some(ScrapeImpl::Rimi)
        } else if chars_equal(&chars, &selver) {
            Some(ScrapeImpl::Selver)
        } else if chars_equal(&chars, &barbora) {
            Some(ScrapeImpl::Barbora)
        } else {
            None
        }
    }
}

/// What reading a page with a given reader gives.
pub open spec fn impl_page_products(imp: ScrapeImpl, html: Seq<char>) -> Result<
    Seq<(Seq<char>, (i128, u32))>,
    ScrapeError,
> {
    match imp {
        ScrapeImpl::Rimi => page_products(
            html,
            Some(rimi::LISTING_SELECTOR@),
            rimi::CARD_SELECTOR@,
            rimi::TITLE_SELECTOR@,
            rimi::PRICE_SELECTOR@,
            false,
        ),
        ScrapeImpl::Selver => page_products(
            html,
            Some(selver::LISTING_SELECTOR@),
            selver::CARD_SELECTOR@,
            selver::TITLE_SELECTOR@,
            selver::PRICE_SELECTOR@,
            true,
        ),
        ScrapeImpl::Barbora => page_products(
            html,
            None,
            barbora::CARD_SELECTOR@,
            barbora::TITLE_SELECTOR@,
            barbora::PRICE_SELECTOR@,
            true,
        ),
    }
}

/// A shop that is scraped: its row id and name, the page that lists its
/// beef, and the reader for that page.
pub struct Scraper {
    pub id: i64,
    pub name: String,
    pub url: String,
    pub kind: ScrapeImpl,
}

/// The URL a text parses to, in its serialised form (`Url::parse`, then
/// `to_string`); `None` when the text is no valid URL.
pub uninterp spec fn parsed_url(text: Seq<char>) -> Option<Seq<char>>;

/// `Url::parse` (url, as re-exported by reqwest), with the parsed URL
/// serialised back by `to_string`. The contract names the result, a function
/// of the text alone; the URL grammar is not stated.
#[verifier::external_body]
fn parse_url(text: &str) -> (r: Option<String>)
    ensures
        opt_view(r) == parsed_url(text@),
{
    ::reqwest::Url::parse(text).ok().map(|u| u.to_string())
}

/// Why a `shop` row gives no scraper.
#[derive(Clone, Copy, Debug, PartialEq, Eq, Structural)]
pub enum ShopRowError {
    /// The `scrape_url` column is no valid URL.
    InvalidUrl,
    /// The `scrape_impl` column names no known reader.
    UnknownImpl,
}

/// The scraper for a `shop` row whose URL parses and whose reader is known
/// (see `checked_scraper_from_row`). The scraper keeps the URL in its parsed
/// form.
pub fn scraper_from_row(id: i64, name: String, url: &str, scrape_impl: &str) -> (r: Scraper)
    requires
        parsed_url(url@) is Some,
        scrape_impl_named(scrape_impl@) is Some,
    ensures
        r.id == id,
        r.name@ == name@,
        Some(r.url@) == parsed_url(url@),
        Some(r.kind) == scrape_impl_named(scrape_impl@),
{
    let url = match parse_url(url) {
        Some(u) => u,
        None => {
            assert(false);
            String::new()
        },
    };
    let kind = match ScrapeImpl::from_name(scrape_impl) {
        Some(k) => k,
        None => {
            assert(false);
            ScrapeImpl::Rimi
        },
    };
    Scraper { id, name, url, kind }
}

/// The scraper for a `shop` row, when its URL parses and its reader is
/// known (see `scraper_from_row`); else which of the two fails, the URL
/// being checked first.
pub fn checked_scraper_from_row(id: i64, name: String, url: &str, scrape_impl: &str) -> (r: Result<
    Scraper,
    ShopRowError,
>)
    ensures
        match (parsed_url(url@), scrape_impl_named(scrape_impl@)) {
            (None, _) => r == Err::<Scraper, ShopRowError>(ShopRowError::InvalidUrl),
            (Some(_), None) => r == Err::<Scraper, ShopRowError>(ShopRowError::UnknownImpl),
            (Some(u), Some(k)) => r matches Ok(s) && s.id == id && s.name@ == name@ && s.url@ == u
                && s.kind == k,
        },
{
    if parse_url(url).is_none() {
        return Err(ShopRowError::InvalidUrl);
    }
    if ScrapeImpl::from_name(scrape_impl).is_none() {
        return Err(ShopRowError::UnknownImpl);
    }
    Ok(scraper_from_row(id, name, url, scrape_impl))
}

impl Scraper {
    /// The products of a page fetched from this shop, read by its reader; the
    /// page must be one the reader can read (see `read_page`).
    pub fn parse_html(&self, html: &str) -> (r: Vec<Product>)
        requires
            impl_page_products(self.kind, html@) is Ok,
        ensures
            impl_page_products(self.kind, html@) == Ok::<Seq<(Seq<char>, (i128, u32))>, ScrapeError>(
                products_view(r@),
            ),
    {
        match self.kind {
            ScrapeImpl::Rimi => products_of_page(
                html,
                Some(rimi::LISTING_SELECTOR),
                rimi::CARD_SELECTOR,
                rimi::TITLE_SELECTOR,
                rimi::PRICE_SELECTOR,
                false,
            ),
            ScrapeImpl::Selver => products_of_page(
                html,
                Some(selver::LISTING_SELECTOR),
                selver::CARD_SELECTOR,
                selver::TITLE_SELECTOR,
                selver::PRICE_SELECTOR,
                true,
            ),
            ScrapeImpl::Barbora => products_of_page(
                html,
                None,
                barbora::CARD_SELECTOR,
                barbora::TITLE_SELECTOR,
                barbora::PRICE_SELECTOR,
                true,
            ),
        }
    }

    /// Whether this shop's reader can read a page.
    pub fn can_read(&self, html: &str) -> (b: bool)
        ensures
            b == impl_page_products(self.kind, html@) is Ok,
    {
        match self.kind {
            ScrapeImpl::Rimi => page_readable(
                html,
                Some(rimi::LISTING_SELECTOR),
                rimi::CARD_SELECTOR,
                rimi::TITLE_SELECTOR,
                rimi::PRICE_SELECTOR,
            ),
            ScrapeImpl::Selver => page_readable(
                html,
                Some(selver::LISTING_SELECTOR),
                selver::CARD_SELECTOR,
                selver::TITLE_SELECTOR,
                selver::PRICE_SELECTOR,
            ),
            ScrapeImpl::Barbora => page_readable(
                html,
                None,
                barbora::CARD_SELECTOR,
                barbora::TITLE_SELECTOR,
                barbora::PRICE_SELECTOR,
            ),
        }
    }

    /// The products of a page, when the shop's reader can read it (see
    /// `can_read`); else why it cannot.
    pub fn read_page(&self, html: &str) -> (r: Result<Vec<Product>, ScrapeError>)
        ensures
            match r {
                Ok(v) => impl_page_products(self.kind, html@) == Ok::<
                    Seq<(Seq<char>, (i128, u32))>,
                    ScrapeError,
                >(products_view(v@)),
                Err(e) => impl_page_products(self.kind, html@) == Err::<
                    Seq<(Seq<char>, (i128, u32))>,
                    ScrapeError,
                >(e),
            },
    {
        if self.can_read(html) {
            Ok(self.parse_html(html))
        } else {
            Err(self.read_error(html))
        }
    }

    /// Why this shop's reader cannot read a page.
    fn read_error(&self, html: &str) -> (e: ScrapeError)
        requires
            impl_page_products(self.kind, html@) is Err,
        ensures
            impl_page_products(self.kind, html@) == Err::<Seq<(Seq<char>, (i128, u32))>, ScrapeError>(e),
    {
        let r = match self.kind {
            ScrapeImpl::Rimi => read_card_fields(
                html,
                Some(rimi::LISTING_SELECTOR),
                rimi::CARD_SELECTOR,
                rimi::TITLE_SELECTOR,
                rimi::PRICE_SELECTOR,
            ),
            ScrapeImpl::Selver => read_card_fields(
                html,
                Some(selver::LISTING_SELECTOR),
                selver::CARD_SELECTOR,
                selver::TITLE_SELECTOR,
                selver::PRICE_SELECTOR,
            ),
            ScrapeImpl::Barbora => read_card_fields(
                html,
                None,
                barbora::CARD_SELECTOR,
                barbora::TITLE_SELECTOR,
                barbora::PRICE_SELECTOR,
            ),
        };
        match r {
            Err(e) => e,
            Ok(_) => {
                assert(false);
                ScrapeError::ListingNotFound
            },
        }
    }
}

/// The product a card gives is named by its trimmed title and priced by
/// exactly the decimal that its normalised price text parses to (the same
/// mantissa and scale, so the same value); and a card with a title whose
/// price text normalises to a text that parses always gives that product.
pub proof fn law_card_price_is_the_parsed_decimal(
    card: (Option<Seq<char>>, Option<Seq<char>>),
    per_kg: bool,
)
    ensures
        card_product(card, per_kg) matches Some((n, v)) ==> {
            &&& card.0 matches Some(t) && n == trim(t)
            &&& card.1 matches Some(p) && price_decimal_text(p, per_kg) matches Some(d)
                && decimal_from_str(d) == Some(v)
        },
        card.0 matches Some(t) ==> (card.1 matches Some(p) ==> (price_decimal_text(p, per_kg) matches Some(
            d,
        ) ==> (decimal_from_str(d) matches Some(v) ==> card_product(card, per_kg) == Some(
            (trim(t), v),
        )))),
{
}

/// A scraper built from a shop row reads a page exactly as that shop's own
/// reader does: Barbora's cards over the whole page with per-kilogram
/// prices, Rimi's inside its first product grid with plain prices, and
/// Selver's inside its first product listing with per-kilogram prices.
pub proof fn law_scraper_reads_as_its_shop(html: Seq<char>)
    ensures
        impl_page_products(ScrapeImpl::Barbora, html) == page_products(
            html,
            None,
            barbora::CARD_SELECTOR@,
            barbora::TITLE_SELECTOR@,
            barbora::PRICE_SELECTOR@,
            true,
        ),
        impl_page_products(ScrapeImpl::Rimi, html) == page_products(
            html,
            Some(rimi::LISTING_SELECTOR@),
            rimi::CARD_SELECTOR@,
            rimi::TITLE_SELECTOR@,
            rimi::PRICE_SELECTOR@,
            false,
        ),
        impl_page_products(ScrapeImpl::Selver, html) == page_products(
            html,
            Some(selver::LISTING_SELECTOR@),
            selver::CARD_SELECTOR@,
            selver::TITLE_SELECTOR@,
            selver::PRICE_SELECTOR@,
            true,
        ),
{
}

/// A price text that is one number, with nothing around it, is read as that
/// number with its decimal commas made points: as it is for the plain
/// prices, and with "€/kg" after it for the per-kilogram prices; a
/// per-kilogram price text that does not end in "€/kg" gives nothing.
pub proof fn law_price_text_read_as_written(x: Seq<char>, text: Seq<char>)
    requires
        x.len() > 0,
        !is_white_space(x[0]),
        !is_white_space(x.last()),
        forall|i: int| 0 <= i < x.len() ==> x[i] != '\n',
    ensures
        price_decimal_text(x, false) == Some(replace_char(x, ',', '.')),
        price_decimal_text(x + per_kg_suffix(), true) == Some(replace_char(x, ',', '.')),
        !(text.len() >= 4 && text.subrange(text.len() - 4, text.len() as int) == per_kg_suffix())
            ==> price_decimal_text(text, true) is None,
{
    assert(trim_start(x) == x);
    assert(trim_end(x) == x);
    assert(trim(x) == x);
    crate::text::lemma_first_index_of_bounds(x, '\n');
    if first_index_of(x, '\n') < x.len() {
        assert(x[first_index_of(x, '\n')] == '\n');
    }
    assert(before_first(x, '\n') =~= x);
    let s = x + per_kg_suffix();
    assert(s.subrange(s.len() - per_kg_suffix().len(), s.len() as int) =~= per_kg_suffix());
    assert(s.take(s.len() - per_kg_suffix().len()) =~= x);
}

} // verus!
