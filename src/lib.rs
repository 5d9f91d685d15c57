//! Node lifecycle of a section-governed storage network: the stage state
//! machine, the two-round genesis signature protocol, the queue of
//! section-leader duties held back during a promotion, and the section's
//! store-cost bookkeeping.

pub mod rate_limit;
pub mod types;
pub mod genesis;
pub mod node_duties;
pub mod wallet_section;
pub mod laws;
