//! Decision logic of a periodic stock watcher: compare fresh quotes against
//! stored baselines and price alerts, decide what to persist and what to
//! notify, and build the exact requests that carry those decisions out.
//!
//! Prices are held as whole micro-units (millionths of the currency unit).

pub mod price;
pub mod text;
pub mod event;
pub mod decision;
pub mod watchlist;
pub mod messages;
pub mod requests;
pub mod run;

pub use run::{processStocksAndAlerts, RunReport};
pub use watchlist::{Alert, StockPrice};
