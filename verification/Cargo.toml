[package]
name = "anathema_logging"
version = "0.1.0"
edition = "2021"
publish = false

[dependencies]
anathema = "=0.2.11"
flume = "=0.11.1"
