[package]
name = "mosquitto_supervisor"
version = "0.1.0"
edition = "2021"
publish = false

[dependencies]
target-lexicon = "*"
dotenv = "0.15"
