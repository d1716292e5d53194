//! Request validation, flight-plan translation, price enrichment and
//! client-slot bookkeeping for the cargo booking gateway.

pub mod flights;
pub mod handlers;
pub mod ids;
pub mod pool;
pub mod query;
pub mod types;
