//! Process configuration: where the durable log and the projection live,
//! and where the message broker listens. The values are carried verbatim;
//! reading them from the environment is the entry point's concern.

use vstd::prelude::*;

verus! {

/// The paths and addresses the adapters are wired with.
pub struct Config {
    pub event_store_path: String,
    pub projection_database_path: String,
    pub kafka_bootstrap_servers: String,
}

impl Config {
    pub fn new(
        event_store_path: String,
        projection_database_path: String,
        kafka_bootstrap_servers: String,
    ) -> (r: Self)
        ensures
            r.event_store_path@ == event_store_path@,
            r.projection_database_path@ == projection_database_path@,
            r.kafka_bootstrap_servers@ == kafka_bootstrap_servers@,
    {
        Self { event_store_path, projection_database_path, kafka_bootstrap_servers }
    }
}

} // verus!
