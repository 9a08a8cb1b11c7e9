//! An event-sourced reconciliation engine for a ledger-backed marketplace:
//! raw vault logs are decoded into typed messages, a single dispatcher
//! routes each message against the locally configured identity, and the two
//! stateful actors — a Keeper owning one index and a Vendor owning one
//! market — lay out the exact ordered, chunked call sequences that keep
//! their cached state synchronized with on-chain truth. The surrounding
//! process performs the transport and awaits each receipt; everything that
//! decides is here, with its contract.

pub mod account;
pub mod amount;
pub mod app;
pub mod calls;
pub mod chunk;
pub mod errors;
pub mod keeper;
pub mod labels;
pub mod message;
pub mod pulley;
pub mod rand_pick_assets;
pub mod rand_value;
pub mod record;
pub mod vector;
pub mod vendor;
pub mod wire;
