pub mod pagination;
pub mod repositories;
pub mod keys;
pub mod seed;
pub mod sql;
