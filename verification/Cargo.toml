[package]
name = "dailydoco"
version = "0.1.0"
edition = "2021"
publish = false

[dependencies]
regex = "1"
uuid = { version = "1", features = ["v4"] }
num_cpus = "1"
sysinfo = "0.29"
