[package]
name = "ble_telemetry"
version = "0.1.0"
edition = "2021"
publish = false

[dependencies]
blurz = "=0.4.0"
env_logger = "=0.11.11"
log = "=0.4.34"
