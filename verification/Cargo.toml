[package]
name = "doken"
version = "0.1.0"
edition = "2021"
publish = false

[dependencies]
anyhow = "=1.0.104"
async-trait = "=0.1.92"
base64 = "=0.21.7"
chromiumoxide = { version = "=0.5.7", default-features = false, features = ["tokio-runtime"] }
clap = { version = "=3.2.25", features = ["derive", "env"] }
dotenv = "=0.15.0"
env_logger = "=0.10.2"
form_urlencoded = "=1.2.2"
futures = "=0.3.34"
log = "=0.4.34"
oauth2 = "=4.4.2"
rpassword = "=7.5.4"
serde_json = "=1.0.154"
thiserror = "=1.0.69"
tiny_http = "=0.12.0"
tokio = { version = "=1.54.1", features = ["full"] }
url = "=2.5.8"
