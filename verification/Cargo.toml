[package]
name = "appvarpack"
version = "0.1.0"
edition = "2021"
publish = false

[dependencies]
clap = "4"
flate2 = "1"
tar = "0.4"
