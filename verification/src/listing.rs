//! The per-shop listings: they read a shop's listing page and give, for
//! each product card, a line with the product's name and its unit price text
//! as the page shows it. Unlike the scrapers they do not parse the price, and
//! they expect every card to hold what they print: a listing is given only
//! for a page on which none lacks anything (`listing_complete`), which the
//! `_checked` functions test first.
use vstd::prelude::*;

use crate::scraper::{
    barbora, read_card_fields, rimi, scraped_card_fields, selver, CardFields, FieldText, ScrapeError,
    opt_str_view,
};
use crate::text::{chars_of, string_of, trim, trim_chars};

verus! {

/// The URL that `input` resolves to against `base` (`Url::parse` of the
/// base, then `Url::join`), serialised; `None` when either step fails.
pub uninterp spec fn joined_url(base: Seq<char>, input: Seq<char>) -> Option<Seq<char>>;

/// `Url::parse` of `base` and `Url::join` of `input` (url, as re-exported by
/// reqwest), serialised by `to_string`. The contract names the result, a
/// function of the two texts alone; the URL grammar is not stated.
#[verifier::external_body]
fn join_url(base: &str, input: &str) -> (r: Option<String>)
    ensures
        crate::scraper::opt_view(r) == joined_url(base@, input@),
{
    ::reqwest::Url::parse(base).ok()?.join(input).ok().map(|u| u.to_string())
}

pub const BARBORA_BASE_URL: &'static str = "https://barbora.ee/";

pub const BARBORA_BEEF_PATH: &'static str = "/liha-kala-valmistoit/liha/veis-ja-muu-varske-liha";

pub const RIMI_BASE_URL: &'static str = "https://www.rimi.ee/";

pub const RIMI_BEEF_PATH: &'static str =
    "https://www.rimi.ee/epood/ee/tooted/liha--ja-kalatooted/veise--lamba--ja-ulukiliha/c/SH-8-21";

pub const SELVER_BASE_URL: &'static str = "https://www.selver.ee/";

pub const SELVER_BEEF_PATH: &'static str =
    "/liha-ja-kalatooted/veise-lamba-ja-ulukiliha?product_segment=4725";

/// The page of Barbora's beef listing: its beef path joined to its base URL.
pub fn barbora_listing_url() -> (r: Option<String>)
    ensures
        crate::scraper::opt_view(r) == joined_url(BARBORA_BASE_URL@, BARBORA_BEEF_PATH@),
{
    join_url(BARBORA_BASE_URL, BARBORA_BEEF_PATH)
}

/// The page of Rimi's beef listing: its beef path joined to its base URL.
pub fn rimi_listing_url() -> (r: Option<String>)
    ensures
        crate::scraper::opt_view(r) == joined_url(RIMI_BASE_URL@, RIMI_BEEF_PATH@),
{
    join_url(RIMI_BASE_URL, RIMI_BEEF_PATH)
}

/// The page of Selver's beef listing: its beef path joined to its base URL.
pub fn selver_listing_url() -> (r: Option<String>)
    ensures
        crate::scraper::opt_view(r) == joined_url(SELVER_BASE_URL@, SELVER_BEEF_PATH@),
{
    join_url(SELVER_BASE_URL, SELVER_BEEF_PATH)
}

/// What a card lacked.
#[derive(Clone, Copy, Debug, PartialEq, Eq, Structural)]
pub enum ListingError {
    /// The card has no price element.
    MissingPrice,
    /// The card has no title element.
    MissingTitle,
    /// The card's title element has no text.
    MissingTitleText,
    /// The card's price element has no text.
    MissingPriceText,
}

/// How a shop's listing treats its cards.
#[derive(Clone, Copy, Debug, PartialEq, Eq, Structural)]
pub struct ListingStyle {
    /// A card without a price element is skipped (else it is an error).
    pub skip_without_price: bool,
    /// The price text is trimmed and its line breaks removed (else it is
    /// shown as it is).
    pub join_price_lines: bool,
}

/// One line of a listing.
#[derive(Debug)]
pub struct ListingLine {
    pub name: String,
    pub unit_price: String,
}

impl View for ListingLine {
    type V = (Seq<char>, Seq<char>);

    open spec fn view(&self) -> (Seq<char>, Seq<char>) {
        (self.name@, self.unit_price@)
    }
}

/// The lines of a listing, and what ended it early, if anything.
#[derive(Debug)]
pub struct Listing {
    pub lines: Vec<ListingLine>,
    pub error: Option<ListingError>,
}

pub open spec fn lines_view(lines: Seq<ListingLine>) -> Seq<(Seq<char>, Seq<char>)> {
    lines.map_values(|l: ListingLine| l@)
}

/// The text without the char `c`: what `split(c).collect::<String>()` gives.
pub open spec fn remove_char(s: Seq<char>, c: char) -> Seq<char>
    decreases s.len(),
{
    if s.len() == 0 {
        s
    } else {
        let r = remove_char(s.drop_last(), c);
        if s.last() == c {
            r
        } else {
            r.push(s.last())
        }
    }
}

/// The unit price text a listing shows for a price text.
pub open spec fn unit_price_text(price: Seq<char>, style: ListingStyle) -> Seq<char> {
    if style.join_price_lines {
        remove_char(trim(price), '\n')
    } else {
        price
    }
}

/// The line of one card: skipped (`Ok(None)`), a line, or what the card
/// lacks, checked in this order: the price element, the title element, the
/// title text, the price text.
pub open spec fn listing_line(
    card: (Option<Option<Seq<char>>>, Option<Option<Seq<char>>>),
    style: ListingStyle,
) -> Result<Option<(Seq<char>, Seq<char>)>, ListingError> {
    match card.1 {
        None => if style.skip_without_price {
            Ok(None)
        } else {
            Err(ListingError::MissingPrice)
        },
        Some(price) => match card.0 {
            None => Err(ListingError::MissingTitle),
            Some(None) => Err(ListingError::MissingTitleText),
            Some(Some(t)) => match price {
                None => Err(ListingError::MissingPriceText),
                Some(p) => Ok(Some((trim(t), unit_price_text(p, style)))),
            },
        },
    }
}

/// The listing of a list of cards: their lines in order, up to the first
/// card that lacks something, whose error ends the listing.
pub open spec fn listing_of(
    cards: Seq<(Option<Option<Seq<char>>>, Option<Option<Seq<char>>>)>,
    style: ListingStyle,
) -> (Seq<(Seq<char>, Seq<char>)>, Option<ListingError>)
    decreases cards.len(),
{
    if cards.len() == 0 {
        (Seq::empty(), None)
    } else {
        match listing_line(cards[0], style) {
            Err(e) => (Seq::empty(), Some(e)),
            Ok(None) => listing_of(cards.drop_first(), style),
            Ok(Some(line)) => {
                let (rest, e) = listing_of(cards.drop_first(), style);
                (seq![line] + rest, e)
            },
        }
    }
}

/// A listing has at most one line per card, and when no card lacks anything
/// it ends without an error.
pub proof fn law_listing_bounded(
    cards: Seq<(Option<Option<Seq<char>>>, Option<Option<Seq<char>>>)>,
    style: ListingStyle,
)
    ensures
        listing_of(cards, style).0.len() <= cards.len(),
        (forall|i: int| 0 <= i < cards.len() ==> #[trigger] listing_line(cards[i], style) is Ok)
            ==> listing_of(cards, style).1 is None,
    decreases cards.len(),
{
    if cards.len() > 0 {
        law_listing_bounded(cards.drop_first(), style);
        if forall|i: int| 0 <= i < cards.len() ==> #[trigger] listing_line(cards[i], style) is Ok {
            assert forall|i: int| 0 <= i < cards.drop_first().len() implies #[trigger] listing_line(
                cards.drop_first()[i],
                style,
            ) is Ok by {
                assert(cards.drop_first()[i] == cards[i + 1]);
            }
            assert(listing_line(cards[0], style) is Ok);
        }
    }
}

/// The text without its `c`s.
pub fn remove_char_chars(s: &Vec<char>, c: char) -> (r: Vec<char>)
    ensures
        r@ == remove_char(s@, c),
{
    let mut r: Vec<char> = Vec::new();
    let mut k: usize = 0;
    while k < s.len()
        invariant
            0 <= k <= s.len(),
            r@ == remove_char(s@.take(k as int), c),
        decreases s.len() - k,
    {
        assert(s@.take(k + 1).drop_last() =~= s@.take(k as int));
        assert(s@.take(k + 1).last() == s@[k as int]);
        if s[k] != c {
            r.push(s[k]);
        }
        k += 1;
    }
    assert(s@.take(s.len() as int) =~= s@);
    r
}

/// The line of one card (see `listing_line`).
pub fn card_listing_line(card: &CardFields, style: ListingStyle) -> (r: Result<
    Option<ListingLine>,
    ListingError,
>)
    ensures
        match r {
            Ok(Some(l)) => listing_line(card@, style) == Ok::<
                Option<(Seq<char>, Seq<char>)>,
                ListingError,
            >(Some(l@)),
            Ok(None) => listing_line(card@, style) == Ok::<
                Option<(Seq<char>, Seq<char>)>,
                ListingError,
            >(None),
            Err(e) => listing_line(card@, style) == Err::<
                Option<(Seq<char>, Seq<char>)>,
                ListingError,
            >(e),
        },
{
    if let FieldText::Missing = card.price {
        return if style.skip_without_price {
            Ok(None)
        } else {
            Err(ListingError::MissingPrice)
        };
    }
    let title = match &card.title {
        FieldText::Missing => return Err(ListingError::MissingTitle),
        FieldText::Empty => return Err(ListingError::MissingTitleText),
        FieldText::Text(t) => t,
    };
    let price = match &card.price {
        FieldText::Text(p) => p,
        _ => return Err(ListingError::MissingPriceText),
    };
    let name = string_of(&trim_chars(&chars_of(title.as_str())));
    let unit_price = if style.join_price_lines {
        let trimmed = trim_chars(&chars_of(price.as_str()));
        string_of(&remove_char_chars(&trimmed, '\n'))
    } else {
        string_of(&chars_of(price.as_str()))
    };
    Ok(Some(ListingLine { name, unit_price }))
}

/// The listing of a list of cards (see `listing_of`).
pub(crate) fn listing_cards(cards: &Vec<CardFields>, style: ListingStyle) -> (r: Listing)
    ensures
        (lines_view(r.lines@), r.error) == listing_of(
            crate::scraper::fields_view(cards@),
            style,
        ),
{
    let ghost all = crate::scraper::fields_view(cards@);
    let mut lines: Vec<ListingLine> = Vec::new();
    let mut k: usize = 0;
    assert(all.skip(0) =~= all);
    while k < cards.len()
        invariant
            0 <= k <= cards.len(),
            all == crate::scraper::fields_view(cards@),
            listing_of(all, style) == (
                lines_view(lines@) + listing_of(all.skip(k as int), style).0,
                listing_of(all.skip(k as int), style).1,
            ),
        decreases cards.len() - k,
    {
        let ghost rest = all.skip(k as int);
        assert(rest[0] == cards@[k as int]@);
        assert(rest.drop_first() =~= all.skip(k + 1));
        match card_listing_line(&cards[k], style) {
            Err(e) => {
                assert(lines_view(lines@) + Seq::<(Seq<char>, Seq<char>)>::empty() =~= lines_view(
                    lines@,
                ));
                return Listing { lines, error: Some(e) };
            },
            Ok(None) => {},
            Ok(Some(line)) => {
                let ghost before = lines@;
                lines.push(line);
                assert(lines_view(lines@) =~= lines_view(before).push(line@));
                assert(lines_view(before) + (seq![line@] + listing_of(all.skip(k + 1), style).0)
                    =~= lines_view(lines@) + listing_of(all.skip(k + 1), style).0);
            },
        }
        k += 1;
    }
    assert(all.skip(k as int) =~= Seq::<
        (Option<Option<Seq<char>>>, Option<Option<Seq<char>>>),
    >::empty());
    assert(lines_view(lines@) + Seq::<(Seq<char>, Seq<char>)>::empty() =~= lines_view(lines@));
    Listing { lines, error: None }
}

/// The listing of a page read with the given selectors.
pub open spec fn page_listing(
    html: Seq<char>,
    listing: Option<Seq<char>>,
    card: Seq<char>,
    title: Seq<char>,
    price: Seq<char>,
    style: ListingStyle,
) -> Result<(Seq<(Seq<char>, Seq<char>)>, Option<ListingError>), ScrapeError> {
    match scraped_card_fields(html, listing, card, title, price) {
        Ok(cards) => Ok(listing_of(cards, style)),
        Err(e) => Err(e),
    }
}

/// Whether a page's listing is complete: its cards can be read and none of
/// them lacks anything.
pub open spec fn listing_complete(
    html: Seq<char>,
    listing: Option<Seq<char>>,
    card: Seq<char>,
    title: Seq<char>,
    price: Seq<char>,
    style: ListingStyle,
) -> bool {
    page_listing(html, listing, card, title, price, style) matches Ok((_, e)) && e is None
}

/// Whether a page's listing is complete (see `listing_complete`).
pub fn listing_page_complete(
    html: &str,
    listing: Option<&str>,
    card: &str,
    title: &str,
    price: &str,
    style: ListingStyle,
) -> (b: bool)
    ensures
        b == listing_complete(html@, opt_str_view(listing), card@, title@, price@, style),
{
    match read_card_fields(html, listing, card, title, price) {
        Ok(cards) => listing_cards(&cards, style).error.is_none(),
        Err(_) => false,
    }
}

/// The lines of a page whose listing is complete.
pub fn listing_page(
    html: &str,
    listing: Option<&str>,
    card: &str,
    title: &str,
    price: &str,
    style: ListingStyle,
) -> (r: Vec<ListingLine>)
    requires
        listing_complete(html@, opt_str_view(listing), card@, title@, price@, style),
    ensures
        page_listing(html@, opt_str_view(listing), card@, title@, price@, style) == Ok::<
            (Seq<(Seq<char>, Seq<char>)>, Option<ListingError>),
            ScrapeError,
        >((lines_view(r@), None)),
{
    match read_card_fields(html, listing, card, title, price) {
        Ok(cards) => listing_cards(&cards, style).lines,
        Err(_) => {
            assert(false);
            Vec::new()
        },
    }
}

/// Barbora's listing: every `li` card; cards without a price are skipped;
/// the price text is trimmed and its line breaks removed.
/// The listing must be complete (see `barbora_listing_checked`).
pub fn barbora_listing(html: &str) -> (r: Vec<ListingLine>)
    requires
        listing_complete(html@, None, barbora::CARD_SELECTOR@, barbora::TITLE_SELECTOR@, barbora::PRICE_SELECTOR@, ListingStyle { skip_without_price: true, join_price_lines: true }),
    ensures
        page_listing(html@, None, barbora::CARD_SELECTOR@, barbora::TITLE_SELECTOR@, barbora::PRICE_SELECTOR@, ListingStyle { skip_without_price: true, join_price_lines: true }) == Ok::<
            (Seq<(Seq<char>, Seq<char>)>, Option<ListingError>),
            ScrapeError,
        >((lines_view(r@), None)),
{
    listing_page(html, None, barbora::CARD_SELECTOR, barbora::TITLE_SELECTOR, barbora::PRICE_SELECTOR, ListingStyle { skip_without_price: true, join_price_lines: true })
}

/// The lines of a page when its listing is complete (see `barbora_listing`),
/// else `None`.
pub fn barbora_listing_checked(html: &str) -> (r: Option<Vec<ListingLine>>)
    ensures
        r is Some <==> listing_complete(html@, None, barbora::CARD_SELECTOR@, barbora::TITLE_SELECTOR@, barbora::PRICE_SELECTOR@, ListingStyle { skip_without_price: true, join_price_lines: true }),
        r matches Some(v) ==> page_listing(html@, None, barbora::CARD_SELECTOR@, barbora::TITLE_SELECTOR@, barbora::PRICE_SELECTOR@, ListingStyle { skip_without_price: true, join_price_lines: true }) == Ok::<
            (Seq<(Seq<char>, Seq<char>)>, Option<ListingError>),
            ScrapeError,
        >((lines_view(v@), None)),
{
    if listing_page_complete(html, None, barbora::CARD_SELECTOR, barbora::TITLE_SELECTOR, barbora::PRICE_SELECTOR, ListingStyle { skip_without_price: true, join_price_lines: true }) {
        Some(barbora_listing(html))
    } else {
        None
    }
}

/// Rimi's listing: the cards of the first product grid; every card needs a
/// price; the price text is trimmed and its line breaks removed.
/// The listing must be complete (see `rimi_listing_checked`).
pub fn rimi_listing(html: &str) -> (r: Vec<ListingLine>)
    requires
        listing_complete(html@, Some(rimi::LISTING_SELECTOR@), rimi::CARD_SELECTOR@, rimi::TITLE_SELECTOR@, rimi::PRICE_SELECTOR@, ListingStyle { skip_without_price: false, join_price_lines: true }),
    ensures
        page_listing(html@, Some(rimi::LISTING_SELECTOR@), rimi::CARD_SELECTOR@, rimi::TITLE_SELECTOR@, rimi::PRICE_SELECTOR@, ListingStyle { skip_without_price: false, join_price_lines: true }) == Ok::<
            (Seq<(Seq<char>, Seq<char>)>, Option<ListingError>),
            ScrapeError,
        >((lines_view(r@), None)),
{
    listing_page(html, Some(rimi::LISTING_SELECTOR), rimi::CARD_SELECTOR, rimi::TITLE_SELECTOR, rimi::PRICE_SELECTOR, ListingStyle { skip_without_price: false, join_price_lines: true })
}

/// The lines of a page when its listing is complete (see `rimi_listing`),
/// else `None`.
pub fn rimi_listing_checked(html: &str) -> (r: Option<Vec<ListingLine>>)
    ensures
        r is Some <==> listing_complete(html@, Some(rimi::LISTING_SELECTOR@), rimi::CARD_SELECTOR@, rimi::TITLE_SELECTOR@, rimi::PRICE_SELECTOR@, ListingStyle { skip_without_price: false, join_price_lines: true }),
        r matches Some(v) ==> page_listing(html@, Some(rimi::LISTING_SELECTOR@), rimi::CARD_SELECTOR@, rimi::TITLE_SELECTOR@, rimi::PRICE_SELECTOR@, ListingStyle { skip_without_price: false, join_price_lines: true }) == Ok::<
            (Seq<(Seq<char>, Seq<char>)>, Option<ListingError>),
            ScrapeError,
        >((lines_view(v@), None)),
{
    if listing_page_complete(html, Some(rimi::LISTING_SELECTOR), rimi::CARD_SELECTOR, rimi::TITLE_SELECTOR, rimi::PRICE_SELECTOR, ListingStyle { skip_without_price: false, join_price_lines: true }) {
        Some(rimi_listing(html))
    } else {
        None
    }
}

/// Selver's listing: the cards of the first product listing; every card
/// needs a price; the price text is shown as it is.
/// The listing must be complete (see `selver_listing_checked`).
pub fn selver_listing(html: &str) -> (r: Vec<ListingLine>)
    requires
        listing_complete(html@, Some(selver::LISTING_SELECTOR@), selver::CARD_SELECTOR@, selver::TITLE_SELECTOR@, selver::PRICE_SELECTOR@, ListingStyle { skip_without_price: false, join_price_lines: false }),
    ensures
        page_listing(html@, Some(selver::LISTING_SELECTOR@), selver::CARD_SELECTOR@, selver::TITLE_SELECTOR@, selver::PRICE_SELECTOR@, ListingStyle { skip_without_price: false, join_price_lines: false }) == Ok::<
            (Seq<(Seq<char>, Seq<char>)>, Option<ListingError>),
            ScrapeError,
        >((lines_view(r@), None)),
{
    listing_page(html, Some(selver::LISTING_SELECTOR), selver::CARD_SELECTOR, selver::TITLE_SELECTOR, selver::PRICE_SELECTOR, ListingStyle { skip_without_price: false, join_price_lines: false })
}

/// The lines of a page when its listing is complete (see `selver_listing`),
/// else `None`.
pub fn selver_listing_checked(html: &str) -> (r: Option<Vec<ListingLine>>)
    ensures
        r is Some <==> listing_complete(html@, Some(selver::LISTING_SELECTOR@), selver::CARD_SELECTOR@, selver::TITLE_SELECTOR@, selver::PRICE_SELECTOR@, ListingStyle { skip_without_price: false, join_price_lines: false }),
        r matches Some(v) ==> page_listing(html@, Some(selver::LISTING_SELECTOR@), selver::CARD_SELECTOR@, selver::TITLE_SELECTOR@, selver::PRICE_SELECTOR@, ListingStyle { skip_without_price: false, join_price_lines: false }) == Ok::<
            (Seq<(Seq<char>, Seq<char>)>, Option<ListingError>),
            ScrapeError,
        >((lines_view(v@), None)),
{
    if listing_page_complete(html, Some(selver::LISTING_SELECTOR), selver::CARD_SELECTOR, selver::TITLE_SELECTOR, selver::PRICE_SELECTOR, ListingStyle { skip_without_price: false, join_price_lines: false }) {
        Some(selver_listing(html))
    } else {
        None
    }
}

/// A card that the listing skips can be left out without changing the
/// listing: the cards after it are still listed, and the listing is the
/// same as that of the other cards.
pub proof fn law_skipped_card_can_be_dropped(
    cards: Seq<(Option<Option<Seq<char>>>, Option<Option<Seq<char>>>)>,
    i: int,
    style: ListingStyle,
)
    requires
        0 <= i < cards.len(),
        listing_line(cards[i], style) == Ok::<Option<(Seq<char>, Seq<char>)>, ListingError>(None),
    ensures
        listing_of(cards, style) == listing_of(cards.remove(i), style),
    decreases i,
{
    if i == 0 {
        assert(cards.remove(0) =~= cards.drop_first());
    } else {
        let shorter = cards.remove(i);
        assert(shorter[0] == cards[0]);
        assert(shorter.drop_first() =~= cards.drop_first().remove(i - 1));
        assert(cards.drop_first()[i - 1] == cards[i]);
        law_skipped_card_can_be_dropped(cards.drop_first(), i - 1, style);
    }
}

/// In particular, a skipped card at the head of the cards adds nothing.
pub proof fn law_skipped_first_card_adds_nothing(
    c: (Option<Option<Seq<char>>>, Option<Option<Seq<char>>>),
    rest: Seq<(Option<Option<Seq<char>>>, Option<Option<Seq<char>>>)>,
    style: ListingStyle,
)
    requires
        listing_line(c, style) == Ok::<Option<(Seq<char>, Seq<char>)>, ListingError>(None),
    ensures
        listing_of(seq![c] + rest, style) == listing_of(rest, style),
{
    let cards = seq![c] + rest;
    assert(cards[0] == c);
    law_skipped_card_can_be_dropped(cards, 0, style);
    assert(cards.remove(0) =~= rest);
}

proof fn lemma_remove_char_has_none(s: Seq<char>, c: char)
    ensures
        forall|i: int| 0 <= i < remove_char(s, c).len() ==> remove_char(s, c)[i] != c,
    decreases s.len(),
{
    if s.len() > 0 {
        lemma_remove_char_has_none(s.drop_last(), c);
        let r = remove_char(s.drop_last(), c);
        if s.last() != c {
            assert forall|i: int| 0 <= i < r.push(s.last()).len() implies r.push(s.last())[i] != c by {
                if i < r.len() {
                    assert(r.push(s.last())[i] == r[i]);
                }
            }
        }
    }
}

/// A listing line shows the card's title trimmed, and, for the shops whose
/// price lines are joined, a unit price text without any line break.
pub proof fn law_listing_line_shape(
    card: (Option<Option<Seq<char>>>, Option<Option<Seq<char>>>),
    style: ListingStyle,
)
    ensures
        listing_line(card, style) matches Ok(Some((n, u))) ==> {
            &&& card.0 matches Some(Some(t)) && n == trim(t)
            &&& trim(n) == n
            &&& style.join_price_lines ==> forall|i: int| 0 <= i < u.len() ==> u[i] != '\n'
            &&& !style.join_price_lines ==> card.1 == Some(Some(u))
        },
{
    if let Ok(Some((n, u))) = listing_line(card, style) {
        if let Some(Some(t)) = card.0 {
            crate::text::law_trim_idempotent(t);
        }
        if let Some(Some(p)) = card.1 {
            lemma_remove_char_has_none(trim(p), '\n');
        }
    }
}

} // verus!
