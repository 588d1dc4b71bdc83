//! The relay services: decision routing, identity devices, and quota.
pub mod decision;
pub mod identity;
pub mod push;
pub mod quota;
