//! Response shaping for a set of small HTTP services: a greeting, a book
//! catalogue, a pair of record services with a gateway in front of them,
//! health and throttling reports, and the contexts of a few rendered pages.
//!
//! Everything here works on plain values. Serving, serialising and the clock
//! belong to the program that links this library.

pub mod catalogue;
pub mod cors;
pub mod graphql;
pub mod greeting;
pub mod health;
pub mod pages;
pub mod services;
pub mod text;
pub mod throttle;
