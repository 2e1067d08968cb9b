[package]
name = "firewire_ctl_protocols"
version = "0.1.0"
edition = "2021"
publish = false

[dependencies]
glib = "*"
hinawa = "*"
