[package]
name = "gears"
version = "0.1.0"
edition = "2021"
publish = false

[dependencies]
regex = "1"
proc-macro2 = "1"
quote = "1"
syn = { version = "1", features = ["full"] }
shaderc = "*"
gfx-hal = "*"
