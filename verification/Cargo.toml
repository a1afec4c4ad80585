[package]
name = "epics_ca"
version = "0.1.0"
edition = "2021"
publish = false

[dependencies]
async-trait = "0.1"
futures = "0.3"
humantime = "2"
libc = "0.2"
static_assertions = "1"
