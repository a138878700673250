[package]
name = "omachess"
version = "0.1.0"
edition = "2021"
publish = false

[dependencies]
anyhow = "=1.0.104"
chrono = "=0.4.45"
gtk4 = { version = "=0.11.5", features = ["v4_10"] }
libadwaita = "=0.9.2"
resvg = "=0.49.0"
shakmaty = "=0.29.4"
