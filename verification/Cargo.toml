[package]
name = "rats"
version = "0.1.0"
edition = "2021"
publish = false

[dependencies]
argon2 = "=0.2.4"
rand_core = { version = "=0.6.4", features = ["getrandom"] }
rand = "=0.8.8"
chrono = "=0.4.45"
diesel = { version = "=1.4.8", features = ["sqlite"] }
diesel_migrations = "=1.4.0"
dotenv = "=0.15.0"
rocket = { version = "0.5", features = ["secrets"] }
rocket_dyn_templates = { version = "0.2", features = ["handlebars"] }
rocket-multipart-form-data = "0.10"
lettre = { version = "=0.10.4", default-features = false, features = ["builder", "smtp-transport", "rustls-tls"] }
serde = { version = "=1.0.229", features = ["derive"] }
serde_derive = "=1.0.229"
log = "=0.4.35"
