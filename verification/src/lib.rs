//! Verified core of a small authenticated profile-management service for
//! "brawler" (player) accounts: registration, display-name updates and avatar
//! uploads. The modules hold the domain model, the binary-to-text encoding of
//! avatar images, the multipart field selection, the repository contract with
//! an in-memory implementation, the use-case service, and the request handler
//! cores that map use-case results to transport responses.

pub mod domain;
pub mod encoding;
pub mod multipart;
pub mod repository;
pub mod use_cases;
pub mod handlers;
