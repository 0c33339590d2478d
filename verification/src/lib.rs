//! Verified core of a small portfolio backend: records, partial updates,
//! SQL statements, response envelopes and the upload workflow, all as
//! functions on plain values. Database, network and file access belong to
//! the caller, which carries out what these functions ask for.
//!
//! - `models`, `dtos`: the records and what clients send.
//! - `repositories`: the statements for the two tables and the records made
//!   of their rows.
//! - `services`: the seam above the repositories, and the media host.
//! - `handlers`: one pair of functions for each route, and the two uploads.
//! - `config`: what the start of the server decides.
//! - `ids`, `text`: identifiers, numbers and file names as text.
//! - `trusted`: the calls into other crates, with the contracts taken on
//!   trust.
//! - `example`: small functions in the style of the crate.

pub mod config;
pub mod dtos;
pub mod example;
pub mod handlers;
pub mod ids;
pub mod models;
pub mod repositories;
pub mod services;
pub mod text;
pub mod trusted;
