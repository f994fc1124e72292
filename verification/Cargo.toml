[package]
name = "termite"
version = "0.1.0"
edition = "2021"
publish = false

[dependencies]
crossterm = "*"
dirs = "*"
log = "*"
ratatui = "*"
simplelog = "*"
