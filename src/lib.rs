//! A token bucket rate limiter whose refill and consume rules are verified.
mod clock;
pub mod lemmas;
pub mod token_bucket;

pub use token_bucket::TokenBucket;
