[package]
name = "m27q_kvm"
version = "0.1.0"
edition = "2021"
publish = false

[dependencies]
pico-args = "*"
rusb = "*"
tray-item = "*"
