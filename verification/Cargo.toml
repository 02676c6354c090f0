[package]
name = "pomme-screenshare"
version = "0.1.0"
edition = "2021"
publish = false

[dependencies]
core-video = "*"
image = { version = "=0.25.10", default-features = false }
objc2-core-graphics = "*"
openh264 = "=0.9.9"
tokio = { version = "=1.54.1", features = ["rt-multi-thread", "net", "io-util", "sync"] }
windows = { version = "*", features = ["Win32_Foundation", "Win32_Media_MediaFoundation", "Win32_System_Com"] }
windows-capture = "*"
xcap = "*"
