[package]
name = "filesaver"
version = "0.1.0"
edition = "2021"
publish = false

[dependencies]
base64 = "*"
image = { version = "*", default-features = false, features = ["webp", "avif"] }
zune-core = "*"
zune-jpegxl = "*"

[dev-dependencies]
jxl-oxide = "*"
