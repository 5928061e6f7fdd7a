//! Resource lifecycle for the RandomX proof-of-work engine: flag sets,
//! the plan that builds a dataset, and the mode checks made before a
//! virtual machine is created.
pub mod dataset;
pub mod error;
pub mod flags;
pub mod partition;
pub mod vm;

pub use crate::dataset::{BuildAction, BuildEvent, BuildStage, DatasetBuild};
pub use crate::error::RandomxError;
pub use crate::flags::RandomxFlags;
pub use crate::partition::{partition, ItemRange};
pub use crate::vm::{fast_vm_flags, light_vm_flags, HASH_SIZE};
