[package]
name = "pg_codec"
version = "0.1.0"
edition = "2021"
publish = false

[dependencies]
bytes = "1"
fallible-iterator = "0.2"
postgres-protocol = "0.6"
tracing-error = "0.2"
