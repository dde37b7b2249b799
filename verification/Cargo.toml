[package]
name = "elsa"
version = "0.1.0"
edition = "2021"
publish = false

[dependencies]
fixed = "=1.31.0"
cordic = "=0.1.5"
serde = { version = "1", features = ["derive"] }
serde_json = "1"
serde_yaml = "0.9"
geojson = "0.24"
geo-types = "0.6"
geo-booleanop = "0.3"
uuid = { version = "1", features = ["v4"] }
