[package]
name = "mcu_ioc"
version = "0.1.0"
edition = "2021"
publish = false

[dependencies]
serde = { version = "*", features = ["derive"] }
quick-xml = { version = "*", features = ["serialize"] }
