[package]
name = "touchhle_core"
version = "0.1.0"
edition = "2021"
publish = false

[dependencies]
symphonia = { version = "0.5", features = ["isomp4"] }
openh264 = "*"
jni = "*"
