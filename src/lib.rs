//! A typed access layer for PostgreSQL: schema descriptors rendered to DDL,
//! filter and update expressions rendered to SQL with numbered placeholders,
//! the connection and transaction lifecycle, and one-time migrations.

pub mod text;
pub mod filter;
pub mod schema;
pub mod table;
pub mod db;
pub mod tx;
pub mod migrations;
pub mod uid;

