//! A to-do list backend: entities, the error taxonomy and its rendering, the
//! mapping from store rows to entities, the per-operation result handling of the
//! data access layer, and an abstract model of the relational store that states
//! what each statement does.

pub mod config;
pub mod db;
pub mod errors;
pub mod handlers;
pub mod laws;
pub mod models;
pub mod row;
pub mod store;
