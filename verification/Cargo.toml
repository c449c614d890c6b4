[package]
name = "telemetry_bridge"
version = "0.1.0"
edition = "2021"
publish = false

[dependencies]
chrono = "=0.4.45"
anyhow = "=1.0.104"
tokio = { version = "=1.53.2", features = ["full"] }
rumqttc = "=0.25.1"
influxdb = "=0.8.0"
log = "=0.4.34"
pretty_env_logger = "=0.5.0"
color-backtrace = "=0.7.4"
linux-embedded-hal = "=0.3.2"
aht20 = "=0.1.0"
sgp30 = "=0.3.2"
