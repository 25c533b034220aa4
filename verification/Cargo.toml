[package]
name = "bulks"
version = "0.1.0"
edition = "2021"
publish = false

[dependencies]
array_trait = "*"
currying = "*"
moddef = "*"
