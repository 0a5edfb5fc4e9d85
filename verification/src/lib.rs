//! A safe layer over an embedded SQL engine: connection lifecycle, prepared
//! statements, typed parameter binding and row decoding, and ordered,
//! idempotent schema migrations.

pub mod bindable;
pub mod connection;
pub mod engine;
pub mod error;
pub mod migrations;
pub mod statement;
pub mod value;
