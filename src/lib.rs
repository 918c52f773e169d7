//! Metrics exporter core: account configuration, per-user statistics and
//! their rendering as metrics exposition text.

pub mod decimal;
pub mod options;
pub mod render;
pub mod scrape;
pub mod user;

pub use decimal::{decimal, digit_char, push_decimal};
pub use options::{get_options, zip_accounts, AccountConfig, ClientOptions, ConfigError, UserOptions};
pub use render::render;
pub use user::{User, UserStats};
pub use scrape::{ApiError, FailurePolicy, Response, Scrape, Step};
