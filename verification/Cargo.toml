[package]
name = "a653rs"
version = "0.1.0"
edition = "2021"
publish = false

[dependencies]
bytesize = "1"
humantime = "2"
convert_case = "0.6"
