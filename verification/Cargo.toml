[package]
name = "star_atlas"
version = "0.1.0"
edition = "2021"
publish = false

[dependencies]
planet_generator = "=0.0.8-pre-alpha"
actix-web = "=4.18.1"
actix-cors = "=0.7.2"
actix-files = "=0.7.2"
chrono = "=0.4.45"
fern = "=0.7.1"
log = "=0.4.34"
mime_guess = "=2.0.5"
serde = { version = "=1.0.229", features = ["derive"] }
