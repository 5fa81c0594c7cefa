//! Camera frame acquisition and distribution pipeline.
//!
//! A background acquisition loop polls a fixed set of capture devices at a
//! configured cadence, tolerates per-device failures, and publishes the latest
//! decoded frame of every device as one atomic snapshot. Readers fetch the most
//! recent snapshot at any time without blocking the producer.

mod config;
mod cycle;
mod frame;
mod service;
mod snapshot;
mod store;

pub use config::ConfigError;
pub use config::Settings;
pub use config::DEFAULT_HEIGHT;
pub use config::DEFAULT_WIDTH;
pub use cycle::AcquisitionCycle;
pub use frame::Frame;
pub use service::ServiceError;
pub use service::SnapshotService;
pub use snapshot::lookup;
pub use snapshot::CameraIdentity;
pub use snapshot::CameraSnapshot;
pub use snapshot::SnapshotSet;
pub use store::lemma_extends_trans;
pub use store::lemma_latest_monotone;
pub use store::FrameStore;
pub use store::SnapshotReader;
