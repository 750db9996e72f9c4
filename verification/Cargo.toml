[package]
name = "branch_review"
version = "0.1.0"
edition = "2021"
publish = false

[dependencies]
chrono = { version = "0.4", default-features = false, features = ["std"] }
crossterm = { version = "*", default-features = false }
git2 = { version = "*", default-features = false }
thiserror = "1"
