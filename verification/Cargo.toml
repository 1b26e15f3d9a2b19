[package]
name = "block_ingestion"
version = "0.1.0"
edition = "2021"
publish = false

[dependencies]
futures = "0.1"
slog = "2"
