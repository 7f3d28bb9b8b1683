[package]
name = "ubpf"
version = "0.1.0"
edition = "2021"
publish = false

[dependencies]
bytes = "*"
goblin = "*"
iced-x86 = "*"
structopt = "*"
libc = "*"
