[package]
name = "batterybar"
version = "0.1.0"
edition = "2021"
publish = false

[dependencies]
cocoa = "*"
core-foundation = "*"
core-foundation-sys = "*"
objc = "0.2"
