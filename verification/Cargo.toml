[package]
name = "dsa"
version = "0.3.0"
edition = "2021"
publish = false

[dependencies]
rand = "0.8"
clap = "3"
roxmltree = "*"
rustyline = "*"
shell-words = "1"
json = "0.12"
termion = "1.5"
tui = { version = "0.19", default-features = false, features = ["termion"] }
