//! Wallet storage on SQLite: the verified core.
//!
//! The library holds the wallet's record types, the SQL statements that the
//! store issues, the decoding of fetched rows into records, the protocol that
//! each store operation follows (which statement it issues next, and what it
//! answers once the replies are in), and the schema migrations.  The calls
//! into SQLite itself are made by the caller, which runs each protocol step
//! and hands back the reply.
mod bytes;
pub mod codec;
pub mod error;
pub mod request;
pub mod external;
pub mod laws;
pub mod machine;
pub mod model;
pub mod protocol;
pub mod rows;
pub mod schema;
pub mod sql;
pub mod sql_syntax;
pub mod types;