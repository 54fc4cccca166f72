pub mod money;
pub mod time;
pub mod ledger;
pub mod price_catalog;
pub mod rate_limit;
