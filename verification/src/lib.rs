//! Identifies the largest holders ("whales") of a token and enriches each
//! with its native-currency balance, producing a combined report.
//!
//! The verified core is the fetch-and-enrich pipeline logic: address
//! validation and checksumming, the decisions of the holder-source client,
//! the enrichment orchestrator's ordering and partial-failure policy, and
//! the report assembler. Network transport and file writing live outside
//! the library, which exchanges plain values with them.

pub mod addresses;
pub mod checksum;
pub mod enrich;
pub mod genaddr;
pub mod model;
pub mod pipeline;
pub mod strutil;
