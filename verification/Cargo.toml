[package]
name = "cl_traits"
version = "0.1.0"
edition = "2021"
publish = false

[dependencies]
arrayvec = "*"
smallvec = "*"
staticvec = "*"
tinyvec = { version = "*", features = ["alloc"] }
