[package]
name = "brewboard"
version = "0.1.0"
edition = "2021"
publish = false

[dependencies]
time = { version = "=0.3.55", features = ["formatting", "parsing", "local-offset"] }
iced = { version = "=0.14.0", default-features = false, features = ["tiny-skia", "tokio", "x11"] }
sqlx = { version = "=0.8.6", default-features = false, features = ["runtime-tokio", "postgres", "time"] }
axum = "=0.8.9"
axum-extra = { version = "=0.10.3", features = ["form"] }
serde = { version = "=1.0.229", features = ["derive"] }
tokio = { version = "=1.54.1", features = ["full"] }
tracing = "=0.1.44"
tracing-subscriber = { version = "=0.3.23", features = ["env-filter"] }
dotenvy = "=0.15.7"
