[package]
name = "kernel"
version = "0.1.0"
edition = "2021"
publish = false

[dependencies]
bootloader_api = "=0.11.17"
embedded-graphics = "=0.8.2"
log = "=0.4.34"
pc-keyboard = "=0.8.0"
pic8259 = "=0.11.0"
spin = "=0.9.9"
uart_16550 = "=0.3.2"
x86_64 = { version = "=0.15.5", default-features = false, features = ["instructions"] }
