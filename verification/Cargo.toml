[package]
name = "bt_hci"
version = "0.1.0"
edition = "2021"
publish = false

[dependencies]
embedded-io = "0.6"
embedded-io-async = "0.6"
