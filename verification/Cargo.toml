[package]
name = "boldtrace"
version = "0.1.0"
edition = "2021"
publish = false

[dependencies]
fluent-bundle = "=0.15.3"
unic-langid = "=0.9.6"
sha2 = "=0.10.9"
argon2 = "=0.5.3"
rand = "=0.8.8"
time = { version = "=0.3.55", features = ["formatting"] }
serde = { version = "=1.0.229", features = ["derive"] }
serde_json = "=1.0.154"
tokio = { version = "=1.54.1", features = ["rt-multi-thread", "macros", "time", "net"] }
tokio-tungstenite = { version = "=0.21.0", features = ["rustls-tls-webpki-roots"] }
futures-util = { version = "=0.3.34", features = ["sink"] }
redis = { version = "=0.25.5", features = ["tokio-comp"] }
reqwest = { version = "=0.12.28", default-features = false, features = ["json", "rustls-tls"] }
tracing = "=0.1.44"
tracing-subscriber = { version = "=0.3.23", features = ["env-filter"] }
axum = "=0.7.9"
axum-extra = { version = "=0.9.6", features = ["cookie"] }
tower-http = { version = "=0.6.11", features = ["cors", "fs", "trace"] }
sqlx = { version = "=0.8.6", default-features = false, features = ["runtime-tokio", "postgres", "macros", "migrate", "time"] }
teloxide = { version = "=0.13.0", default-features = false, features = ["macros", "rustls", "ctrlc_handler"] }
thiserror = "=1.0.69"
async-trait = "=0.1.92"
csv = "=1.4.0"
# Not called directly: teloxide depends on takecell, and its 0.1.2 release
# raised the minimum Rust version above the compiler this crate builds with.
takecell = "=0.1.1"
