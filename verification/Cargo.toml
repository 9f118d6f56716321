[package]
name = "pinephone_emu"
version = "0.1.0"
edition = "2021"
publish = false

[dependencies]
capstone = "0.13"
ctrlc = "3"
object = "0.36"
sfml = "0.20"
unicorn-engine = "2.1"
