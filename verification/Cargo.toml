[package]
name = "spr"
version = "0.1.0"
edition = "2021"
publish = false

[dependencies]
clap = { version = "4", features = ["derive"] }
debug-ignore = "1"
dialoguer = "*"
git2 = { version = "*", default-features = false }
git2-ext = "*"
indoc = "2"
tokio = { version = "1", features = ["macros", "process", "rt-multi-thread"] }

[dev-dependencies]
tempfile = "3"
