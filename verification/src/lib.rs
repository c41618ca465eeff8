//! Data-marshalling boundary of a Postgres wire-protocol client: typed values
//! are encoded to and decoded from the server's binary representation, and the
//! server's structured error and notice messages are parsed into a typed,
//! introspectable error model.

pub mod buffer;
pub mod codec;
pub mod db_error;
pub mod error;
pub mod fault;
pub mod lazy_pin;
pub mod num;
pub mod protocol;
pub mod range;
pub mod row;
pub mod statement;
pub mod text;
pub mod types;
