[package]
name = "pam_pushover"
version = "0.1.0"
edition = "2021"
publish = false

[dependencies]
gethostname = "*"
pam-bindings = "*"
pushover = "*"
rand = "0.8"
