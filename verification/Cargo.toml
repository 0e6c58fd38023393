[package]
name = "typedump"
version = "0.1.0"
edition = "2021"
publish = false

[dependencies]
fxhash = "*"
pdb = "*"
symbolic-common = "*"
symbolic-demangle = { version = "*", default-features = false, features = ["cpp", "msvc", "rust"] }
