//! A verified builder for guild message search queries, and the pieces of
//! logic that turn a query into request parameters and drive a search.
pub mod decimal;
pub mod ids;
pub mod kinds;
pub mod query;
pub mod params;
pub mod search;
pub mod param_laws;
