[package]
name = "self_tokenize"
version = "0.1.0"
edition = "2021"
publish = false

[dependencies]
quote = "0.3"
syn = "0.11"
smallvec = "1"
ordered-float = "*"
num-traits = "0.2"
