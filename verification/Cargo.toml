[package]
name = "hyperoperation"
version = "0.1.0"
edition = "2021"
publish = false

[dependencies]
num-bigint = "0.4"
num-iter = "0.1"
num-traits = "0.2"
