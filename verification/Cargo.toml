[package]
name = "mt7603u_logic"
version = "0.1.0"
edition = "2021"
publish = false

[dependencies]
rusb = "0.9"
