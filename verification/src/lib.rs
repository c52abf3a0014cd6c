//! Password-reset token issuance with two strategies: a secure generator
//! backed by OS entropy, and a deliberately predictable one seeded from a
//! fixed constant, kept side by side so the difference is demonstrable.

pub mod handlers;
pub mod token_generator;
