[package]
name = "rpm_utils"
version = "0.1.0"
edition = "2021"
publish = false

[dependencies]
bitflags = "1"
bzip2 = "0.4"
chrono = "0.4"
clap = { version = "4", features = ["derive"] }
filetime = "0.2"
flate2 = "1"
hex = "0.4"
hostname = "*"
itertools = "*"
nix = { version = "*", features = ["fs", "user"] }
num-derive = "*"
num-traits = "0.2"
omnom = "*"
strum_macros = "*"
xz2 = "0.1"
zstd = "*"
