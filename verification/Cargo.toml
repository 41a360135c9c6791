[package]
name = "moondream_pipeline"
version = "0.1.0"
edition = "2021"
publish = false

[dependencies]
candle-core = "*"
candle-nn = "*"
candle-transformers = "*"
tokenizers = { version = "*", default-features = false, features = ["onig"] }
image = { version = "*", default-features = false, features = ["png", "jpeg"] }
