//! Input storage for an on-demand incremental computation engine: facts
//! supplied from outside, each stamped with the revision at which it last
//! changed, and the change-detection queries that memoized computations use.

pub mod input;
pub mod laws;
pub mod revision;
pub mod runtime;
pub mod table;

pub use input::{ConstantViolation, CycleDetected, InputStorage};
pub use revision::{ChangedAt, Revision, StampedValue};
pub use runtime::Runtime;
