//! A lite thread pool: the configuration of a pool and the lock-guarded
//! state that its workers, its daemon and its submitters share.
//!
//! The state is a plain value: every operation on it is a transition that
//! says what the caller holding the pool's lock must do next (spawn workers,
//! run a task, park, exit). The threads themselves are driven around it.
pub mod builder;
pub mod inner;

pub use builder::{Builder, BuilderView, ConfigError};
pub use inner::{Inner, InnerView, Step};
