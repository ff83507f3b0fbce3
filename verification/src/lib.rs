//! Core of a geometric-modeling kernel: identity-based shared storage for
//! topological objects, an event-sourced state-processing engine, and a
//! validation subsystem that detects structural-invariant violations in an
//! object graph with shared references.

pub mod checks;
pub mod geometry;
pub mod id_map;
pub mod layer;
pub mod math;
pub mod partial;
pub mod plane;
pub mod polygon;
pub mod storage;
pub mod topology;
pub mod update;
pub mod validate;
pub mod validation;
