//! Random lottery number fields: resolving a game preset into a pool
//! configuration, drawing distinct numbers from each pool, and laying the
//! drawn rows out as plain text.

pub mod config;
pub mod field;
pub mod text;
