//! Packet definitions that belong to single keyboard models.

pub mod mod007b;
