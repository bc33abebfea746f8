//! Event-sourced aggregate persistence.
//!
//! An aggregate is rebuilt by folding its ordered history of events into a
//! default state, and the events it raises are appended to that history under
//! one rule: for every aggregate id the stored sequence numbers are exactly
//! `1..=k`, in the order in which they were written.

pub mod account;
pub mod aggregate;
pub mod clock;
pub mod domain;
pub mod error;
pub mod event;
pub mod event_store;
pub mod history;
pub mod laws;
pub mod payload;
pub mod repository;
pub mod services;
pub mod text;
