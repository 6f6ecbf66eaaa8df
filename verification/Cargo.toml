[package]
name = "uka"
version = "0.1.0"
edition = "2021"
publish = false

[dependencies]
ascii = "1"
encoding_rs = "0.8"
thiserror = "1"
log = "0.4"
tokio = { version = "1", default-features = false, features = ["sync", "rt"] }
libloading = "0.8"
libc = "0.2"
