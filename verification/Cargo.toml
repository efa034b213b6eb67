[package]
name = "users"
version = "0.1.0"
edition = "2021"
publish = false

[dependencies]
sha-crypt = "=0.5.0"
actix-web = "=4.15.0"
serde = { version = "=1.0.229", features = ["derive"] }
serde_json = "=1.0.151"
diesel = { version = "=2.3.14", features = ["postgres", "r2d2"] }
diesel-derive-enum = { version = "=2.1.0", features = ["postgres"] }
dotenv = "=0.15.0"
handlebars = "=6.4.4"
r2d2 = "=0.8.10"
