# beef_market

Tracks the prices of beef in Estonian online shops. A worker scrapes each
shop's beef listing once a day, stores the products and their prices per
kilogram in SQLite, computes an embedding of every product name with Ollama,
and leaves room for guessing each product's beef cut.

- `src/` is the verified library (Verus):
  - `text` – trimming, first line, comma replacement, suffix stripping on chars;
  - `price` – prices as decimals (`rust_decimal`) and their storage as cents;
  - `scraper` – reading a shop page (`scraper` crate) into products;
  - `listing` – the per-shop listings of name and unit price text;
  - `settings` – the application settings read from a `config::Config`;
  - `worker` – the worker loop's decisions as a state machine;
  - `ollama` – the Ollama base URL.
- `app/` is the program around it: settings file, database, HTTP and
  WebDriver fetching, Ollama calls, logging, and the loop that performs the
  worker's actions.
- `tests/` runs the library on concrete pages, prices and event sequences.
