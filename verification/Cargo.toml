[package]
name = "monoruby"
version = "0.1.0"
edition = "2021"
publish = false

[dependencies]
dtoa = "1"
escape_string = "*"
