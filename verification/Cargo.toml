[package]
name = "ec-slimloader"
version = "0.1.0"
edition = "2021"
publish = false

[dependencies]
defmt-or-log = { version = "=0.2.3", features = ["log"] }
