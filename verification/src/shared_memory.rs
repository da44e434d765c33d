//! Named shared-memory segments: how one is created, opened, checked, and
//! given up again.

pub mod builder;
pub mod handle;
pub mod laws;
pub mod setup;
pub mod translate;
pub mod types;
