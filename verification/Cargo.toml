[package]
name = "yuv_h264"
version = "0.1.0"
edition = "2021"
publish = false

[dependencies]
openh264 = "*"
napi = { version = "2", features = ["napi4"] }
napi-derive = "2"
