[package]
name = "sync_vid_extension"
version = "0.1.0"
edition = "2021"
publish = false

[dependencies]
rand = "0.8"
matchbox_socket = "*"
futures = "*"
