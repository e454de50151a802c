[package]
name = "spirq_query"
version = "0.1.0"
edition = "2021"
publish = false

[dependencies]
spirq = "=0.6.4"
