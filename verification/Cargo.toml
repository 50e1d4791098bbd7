[package]
name = "furtherance"
version = "0.1.0"
edition = "2021"
publish = false

[dependencies]
chrono = "=0.4.45"
itertools = "=0.10.5"
directories = "=4.0.1"
dbus = { version = "=0.9.12", features = ["vendored"] }
