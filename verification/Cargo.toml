[package]
name = "auth_service"
version = "0.1.0"
edition = "2021"
publish = false

[dependencies]
jsonwebtoken = "9"
serde = { version = "1", features = ["derive"] }
serde_json = "1"
chrono = "0.4"
actix = "0.13"
actix-web = "4"
diesel = { version = "2", default-features = false, features = ["postgres_backend", "chrono"] }
diesel-async = { version = "0.5", features = ["postgres", "deadpool"] }
reqwest = { version = "0.12", default-features = false, features = ["json"] }
tokio = { version = "1", features = ["sync", "rt"] }
futures-util = "0.3"
log = "0.4"
fern = "0.6"
colored = "2"
thiserror = "1"
config = { version = "0.14", default-features = false, features = ["toml"] }

[dev-dependencies]
base64 = "0.22"
