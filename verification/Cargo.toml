[package]
name = "dirlist"
version = "0.1.0"
edition = "2021"
publish = false

[dependencies]
ansi_term = "0.11"
chrono = "0.4"
clap = "2"
libc = "0.2"
structopt = "0.2"
term_grid = "0.1"
term_size = "0.3"
users = "0.7"
