[package]
name = "files_to_prompt"
version = "0.1.0"
edition = "2021"
publish = false

[dependencies]
clap = "4"
colored = "2"
glob = "0.3"
walkdir = "2"
