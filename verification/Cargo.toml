[package]
name = "body_util"
version = "0.1.0"
edition = "2021"
publish = false

[dependencies]
bytes = "1"
http-body = "1"
pin-project-lite = "0.2"
