[package]
name = "jnat"
version = "0.1.0"
edition = "2021"
publish = false

[dependencies]
jni = "=0.21.1"
cesu8 = "=1.1.0"
syn = { version = "=2.0.119", features = ["full"] }
quote = "=1.0.47"
proc-macro2 = "=1.0.107"
log = "=0.4.34"
pretty_env_logger = "=0.5.0"
inventory = "=0.3.25"
