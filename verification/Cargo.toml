[package]
name = "mobile_ios"
version = "0.1.0"
edition = "2021"
publish = false

[dependencies]
anyhow = "1"
cargo-mobile2 = "*"
clap = { version = "4", features = ["derive", "env"] }
log = "0.4"
plist = "1"
sublime_fuzzy = "0.7"
tauri-macos-sign = "*"
