[package]
name = "git-diff-tui"
version = "0.1.0"
edition = "2021"
publish = false

[dependencies]
ratatui = "0.30"
crossterm = "0.29"
git2 = { version = "0.20", default-features = false }
syntect = { version = "5.3", default-features = false, features = ["default-fancy"] }
