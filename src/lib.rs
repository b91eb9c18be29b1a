//! The reactive data view of a browser for crowd-sourced video metadata
//! submissions: the scope of a page and the request it makes, the fetch
//! that must never show a stale answer, the polled freshness signal, and the
//! table rows with their badges.

pub mod fetch;
pub mod freshness;
pub mod scope;
pub mod table;
