//! Verified core of the carbon-credits donation contract.
//!
//! The contract keeps its settings and the accumulated carbon balance in
//! contract storage, takes XLM donations, swaps the provider's share of each
//! donation to carbon credits and pays the provider out in whole buckets.
//! This crate holds that logic over plain values: a model of the contract's
//! storage, the admin-guarded updates, the donation and swap planning, the
//! settlement of a donation, and the walk along a chain of sink contracts.
//! The host environment (storage, authorization, token and router calls,
//! events) is driven by the caller with the values this crate computes.

#![allow(non_snake_case)]

pub mod address;
pub mod admin;
pub mod arith;
pub mod calls;
pub mod contract;
pub mod donation;
pub mod errors;
pub mod events;
pub mod laws;
pub mod sink;
pub mod storage;
pub mod updates;
pub mod views;
