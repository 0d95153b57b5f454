//! Maker-side coordination core of a peer-to-peer CFD trading daemon: the order and
//! contract lifecycle, the rollover protocol engine, and the status records shown to
//! observers. Every piece of logic here is a decision over plain values; the daemon that
//! hosts it performs the network, storage and wallet work that each decision asks for.

pub mod compat;
pub mod handshake;
pub mod cfd;
pub mod maker;
pub mod model;
pub mod rollover;
pub mod setup;
