//! An actor-style market: buyers and sellers that own their state exclusively
//! and trade unique goods through a two-step purchase protocol with
//! compensation on partial failure.
//!
//! This crate holds the verified core: the currency type, goods and
//! inventories, the seller's serialized sale handler, and the buyer's
//! purchase protocol. The asynchronous mailboxes that drive these state
//! machines live outside the library and call into it one decision at a time.

pub mod items;
pub mod money;
pub mod player;
pub mod shop;
