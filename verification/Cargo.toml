[package]
name = "catalyze"
version = "0.1.0"
edition = "2021"
publish = false

[dependencies]
ahash = "0.8"
either = "1"
itertools = "0.12"
protobuf = "3"
slotmap = "1"
snafu = "0.8"
