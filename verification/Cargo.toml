[package]
name = "solidity"
version = "0.1.0"
edition = "2021"
publish = false

[dependencies]
node-semver = "2"
regex = "1"
itertools = "*"
either = "1"
num-bigint = "0.4"
