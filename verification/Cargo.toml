[package]
name = "base_backend"
version = "0.1.0"
edition = "2021"
publish = false

[dependencies]
async-trait = "=0.1.92"
base64 = "=0.23.1"
chrono = "=0.4.45"
dotenv = "=0.15.0"
hex = "=0.4.3"
jsonwebtoken = "=11.1.0"
rand = "=0.10.3"
serde = { version = "=1.0.229", features = ["derive"] }
serde_json = "=1.0.151"
sha2 = "=0.11.0"
tokio = { version = "=1.53.2", features = ["macros", "net", "rt-multi-thread", "signal", "time"] }
utoipa = "=6.0.0"
warp = { version = "=0.4.3", features = ["server"] }
