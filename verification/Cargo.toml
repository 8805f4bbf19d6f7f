[package]
name = "pg_statement"
version = "0.1.0"
edition = "2021"
publish = false

[dependencies]
pq-sys = "0.4"
