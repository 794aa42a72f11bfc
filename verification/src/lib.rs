//! A minimal event-sourcing / CQRS core.
//!
//! Write-side commands produce immutable domain events that are appended to a
//! per-aggregate, globally ordered event log. Aggregate state is never stored:
//! it is always derived by a deterministic left fold (replay) over that log.
//! A read-side projection handler rebuilds state from the full history on
//! every delivered event and upserts it into a repository.

pub mod account;
pub mod config;
pub mod event_bus_memory;
pub mod event_store_memory;
pub mod ids;
pub mod repository_memory;
pub mod traits;

pub use config::Config;
pub use ids::AggregateId;
