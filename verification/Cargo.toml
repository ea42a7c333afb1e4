[package]
name = "inacovid"
version = "0.1.0"
edition = "2021"
publish = false

[dependencies]
chrono = "0.4"
qstring = "0.7"
serde_json = "1"
url = "2"
serde = { version = "1", features = ["derive"] }
reqwest = { version = "0.12", default-features = false }
tokio = { version = "1", features = ["macros", "rt-multi-thread"] }
futures = "0.3"
sqlx = { version = "0.8", default-features = false, features = ["postgres", "runtime-tokio"] }
clap = "4"
