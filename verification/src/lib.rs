//! A thread-safe token-bucket rate limiter core.
//!
//! The bucket tracks an integer count of micro-tokens that refills lazily at
//! a fixed rate up to a capacity ceiling. Callers drain whole tokens to gain
//! permission to proceed. Time is supplied by the caller as a monotonic
//! millisecond clock, so the refill arithmetic is deterministic and fully
//! verified; the surrounding program owns the clock, the lock that serializes
//! access, and any sleeping between retries.

pub mod bucket;
