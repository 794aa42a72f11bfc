//! The generic machinery: the event and command contracts, the replay engine,
//! and the ports (event store, event bus, repository) that adapters implement.

pub mod aggregate;
pub mod command;
pub mod event;
pub mod event_bus;
pub mod event_store;
pub mod repository;

pub use aggregate::Aggregate;
pub use command::Command;
pub use event::Event;
pub use event_bus::EventBus;
pub use event_store::EventStore;
pub use repository::Repository;
