[package]
name = "repo_stats"
version = "0.1.0"
edition = "2021"
publish = false

[dependencies]
clap = "2.34"
curl = "0.4"
json = "0.12"
