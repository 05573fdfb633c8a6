[package]
name = "raw_blocks"
version = "0.1.0"
edition = "2021"
publish = false

[dependencies]
substreams = "=0.6.4"
substreams-ethereum = "=0.12.0"
substreams-antelope = "=0.6.0"
substreams-database-change = "=5.0.0"
substreams-entity-change = "=2.0.0"
