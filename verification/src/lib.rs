//! Workloads that drive interchangeable concurrent key-value maps, with the
//! rules of each workload stated and proved over a mathematical map.

pub mod backend;
pub mod handle;
pub mod model;
pub mod report;
pub mod shards;
pub mod shared;
pub mod strategy;
pub mod workload;
