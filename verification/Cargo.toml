[package]
name = "shukusai"
version = "1.3.0"
edition = "2021"
publish = false

[dependencies]
readable = "*"
symphonia = "*"
crossbeam = "*"
notify = "*"
