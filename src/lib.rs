//! A small cleaning-service order model: a service catalog, a customer
//! profile, and an order that joins them with a price computed from a fixed
//! table of per-need prices.

pub mod entities;
pub mod pricing;
pub mod budget;
