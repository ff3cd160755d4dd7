[package]
name = "biostatus"
version = "0.1.0"
edition = "2021"
publish = false

[dependencies]
anyhow = "=1.0.104"
derivative = "=2.2.0"
diesel = { version = "=2.3.14", default-features = false, features = ["postgres_backend"] }
diesel-async = { version = "=0.9.2", features = ["postgres", "bb8"] }
dptree = "=0.5.1"
envfury = "=0.3.0"
serde = { version = "=1.0.229", features = ["derive"] }
sp-core = { version = "*", default-features = false, features = ["serde"] }
takecell = "=0.1.1"
teloxide = { version = "=0.17.0", features = ["macros", "redis-storage", "bincode-serializer"] }
tokio = { version = "=1.54.1", features = ["full"] }
tracing = "=0.1.44"
tracing-subscriber = "=0.3.23"
