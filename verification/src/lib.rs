//! Decision logic of a forward proxy that rotates its egress source address
//! over an IPv6 prefix: address allocation, request routing and the state
//! machine that establishes a tunnel with dual-stack fallback.

pub mod address;
pub mod candidates;
pub mod router;
pub mod trace;
pub mod tunnel;
