pub mod settings;
pub mod ollama;
pub mod listing;
pub mod price;
pub mod scraper;
pub mod text;
pub mod worker;
