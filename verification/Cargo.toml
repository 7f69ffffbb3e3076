[package]
name = "eclipsecon_mesh"
version = "0.1.0"
edition = "2021"
publish = false

[dependencies]
heapless = "=0.7.17"
hex = "=0.4.3"
uuid = "=1.29.1"
serde = { version = "=1.0.229", features = ["derive"] }
serde_json = "=1.0.154"
anyhow = "=1.0.104"
drogue-client = "=0.11.1"
cloudevents-sdk = "=0.7.0"
url = "=2.5.8"
futures = "=0.3.34"
tokio = { version = "=1.54.1", features = ["time"] }
