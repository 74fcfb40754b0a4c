//! Adapter logic for time-series database backends of two protocol generations: a legacy
//! dialect that answers in JSON and takes line protocol, and a newer one that takes a
//! functional query language and answers in CSV.
//!
//! The library decides and computes; it sends nothing. For each operation an adapter says
//! which request is needed and what the outcome of that request means, and the caller carries
//! the request. Every executable function is verified against its contract.
//!
//! - [`text`]: text as sequences of characters, the vocabulary of the contracts.
//! - [`json`]: loosely typed values and their decoding.
//! - [`error`]: the failures and how they read.
//! - [`models`]: profiles, tabular results, database descriptions, the answer envelope.
//! - [`config`]: decoding a profile's configuration.
//! - [`statement`]: insert statements and the rewriting of listing statements.
//! - [`transport`]: requests and their outcomes as plain values.
//! - [`normalize`]: from either wire format to the one tabular shape.
//! - [`influxdb`]: the two adapters, the front over them, and the factory.
//! - [`database`], [`measurement`]: the operations on databases and measurements.
//! - [`commands`]: the connection registry and the caller-facing decisions.

pub mod commands;
pub mod config;
pub mod database;
pub mod error;
pub mod influxdb;
pub mod json;
pub mod measurement;
pub mod models;
pub mod normalize;
pub mod statement;
pub mod text;
pub mod transport;
