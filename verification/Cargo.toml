[package]
name = "piton"
version = "0.1.0"
edition = "2021"
publish = false

[dependencies]
bbqueue = { version = "=0.7.0", features = ["std"] }
multiqueue = "=0.3.2"
convert_case = "=0.6.0"
genco = "=0.17.10"
miette = "=5.10.0"
peg = "=0.8.6"
thiserror = "=1.0.69"
clap = { version = "=4.6.7", features = ["derive"] }
bytecheck = "=0.6.12"
