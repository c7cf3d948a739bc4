[package]
name = "menyoki"
version = "0.1.0"
edition = "2021"
publish = false

[dependencies]
gif = "0.11"
image = "0.23"
png = "0.17"
gifski = "1.7"
device_query = "1"
bytesize = "1"
x11 = "2"
