//! A small verified core for a love-quote web service: a fixed bank of
//! quotes, a uniform-random selector, two response builders with their
//! JSON serialization, and the route table with its cross-origin policy.

pub mod http;
pub mod json;
pub mod quotes;
pub mod response;
