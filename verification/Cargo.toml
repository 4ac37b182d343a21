[package]
name = "save_the_planet"
version = "0.1.0"
edition = "2021"
publish = false

[dependencies]
indexmap = "*"
crossterm = "*"
ratatui = "*"
