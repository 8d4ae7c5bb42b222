[package]
name = "esperanto"
version = "0.1.0"
edition = "2021"
publish = false

[dependencies]
quickjs_android_suitable_sys = "*"
javascriptcore-sys = "*"
thiserror = "1"
lazy_static = "1"
phf = "*"
by_address = "1"
