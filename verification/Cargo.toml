[package]
name = "modbot"
version = "0.1.0"
edition = "2021"
publish = false

[dependencies]
teloxide = { version = "=0.17.0", default-features = false, features = ["macros", "rustls", "ctrlc_handler"] }
sqlx = { version = "=0.9.0", default-features = false, features = ["sqlite", "runtime-tokio", "macros"] }
tokio = { version = "=1.54.1", features = ["macros", "rt-multi-thread"] }
dotenvy = "=0.15.7"
dptree = "=0.5.1"
takecell = "=0.1.1"
