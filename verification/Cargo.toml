[package]
name = "auth_core"
version = "0.1.0"
edition = "2021"
publish = false

[dependencies]
bcrypt = "=0.19.3"
jsonwebtoken = { version = "=11.1.0", default-features = false, features = ["rust_crypto"] }
serde_json = "*"
redis = "=1.7.1"
diesel = { version = "=2.3.13", features = ["mysql"] }
dotenv = "=0.15.0"
