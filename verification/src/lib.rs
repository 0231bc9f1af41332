//! The configuration model of a Linux installer: what a session holds, its
//! defaults, how it is read from a JSON document and how it is written.
pub mod codec;
pub mod config;
pub mod json;
pub mod laws;
pub mod members;
pub mod partition;
pub mod serde_specs;
pub mod settings;

pub use config::{Config, ConfigView};
pub use json::{Json, JsonView};
pub use members::LoadError;
pub use partition::{is_default, Partition, PartitionAction, SystemStorageInfo, P};
pub use settings::{Bootloader, Locale, Networking, Params};
