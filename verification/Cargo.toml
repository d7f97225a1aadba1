[package]
name = "websubmit_boxed"
version = "0.1.0"
edition = "2021"
publish = false

[dependencies]
sha2 = "0.10"
toml = { version = "0.2", default-features = false }
chrono = "0.4"
clap = "2"
lettre = { version = "0.11", default-features = false, features = ["smtp-transport", "native-tls", "builder"] }
mysql = "*"
native-tls = "0.2"
rocket = "0.5"
rocket_dyn_templates = { version = "0.2", features = ["handlebars"] }
serde = { version = "1", features = ["derive"] }
serde_json = "1"
slog = "2"
slog-term = "2"
time = "0.3"
ureq = { version = "2", default-features = false, features = ["native-tls", "json"] }
