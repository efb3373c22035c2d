//! Serial transport engine for a byte-stream instrument link: frame codec,
//! incremental frame reader, connection registry and configuration parsing.

pub mod crc;
pub mod error;
pub mod frame;
pub mod reader;
pub mod registry;
pub mod text;
pub mod config;
pub mod ports;
