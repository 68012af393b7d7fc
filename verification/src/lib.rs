//! Health classification for a Kafka cluster.
//!
//! Given a point-in-time snapshot of a cluster's brokers, topics and
//! partitions, the library computes one aggregate status and lists the
//! partitions whose in-sync replica set has fallen behind their assignment.
//!
//! [`evaluate`] is the classification. [`ClientSettings`] checks the
//! settings of the client that fetches the metadata, and [`answer`] decides
//! what a request is answered with once the fetch has succeeded or failed.
//! The module [`laws`] holds the properties proved of the classification.

pub mod config;
pub mod evaluate;
pub mod laws;
pub mod report;
pub mod response;
pub mod snapshot;
pub mod status;

pub use crate::config::{ClientSettings, Credentials, InvalidConfiguration};
pub use crate::evaluate::evaluate;
pub use crate::report::{KafkaHealth, KafkaPartitionDetail};
pub use crate::response::{answer, status_code_of, HealthError};
pub use crate::snapshot::{ClusterSnapshot, Partition, Topic};
pub use crate::status::KafkaStatus;
