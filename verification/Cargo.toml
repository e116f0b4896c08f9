[package]
name = "spinlock"
version = "0.1.0"
edition = "2021"
publish = false

[dependencies]
atomiclock = "=0.1.0"
logwise = "=0.2.4"
