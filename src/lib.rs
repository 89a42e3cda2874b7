//! A registry that binds behaviours to reactive entity instances, one map
//! per behaviour kind, and dispatches attach and detach requests by the
//! entity's type tag.

pub mod kind;
pub mod provider;
pub mod registry;
pub mod shared;
