[package]
name = "sendspin"
version = "0.1.1"
edition = "2021"
publish = false

[dependencies]
cpal = "0.15"
log = "0.4"
parking_lot = "0.12"
pipewire = "0.9"
