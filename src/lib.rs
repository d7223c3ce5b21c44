//! Lease lifecycle for chat voice rooms: the lease record, its repository of
//! leases and renewal tokens, the expiration sweep and the renewal handler.

pub mod handler;
pub mod lease;
pub mod repository;
pub mod sweeper;
