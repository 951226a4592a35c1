//! Verified core of a small user-service manager: a service descriptor
//! model, its unit-file rendering, the on-disk store's naming and
//! first-line recovery, the argument lists handed to the external
//! service manager and domain registrar, and the lifecycle state
//! machines that sequence prompts, external calls and rollback.

pub mod create;
pub mod delete;
pub mod descriptor;
pub mod flow;
pub mod manager;
pub mod num;
pub mod registrar;
pub mod render;
pub mod store;
