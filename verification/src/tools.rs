pub mod text_length;
pub mod web_scraper;
