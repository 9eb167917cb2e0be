[package]
name = "usbd-storage"
version = "2.0.0"
edition = "2021"
publish = false

[dependencies]
usb-device = "0.3.2"
