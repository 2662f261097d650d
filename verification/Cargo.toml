[package]
name = "shrink_ray"
version = "1.2.0"
edition = "2021"
publish = false

[dependencies]
clap = { version = "*", features = ["derive"] }
crossterm = "*"
filetime = "*"
magic = "*"
nix = { version = "*", features = ["signal"] }
rand = "*"
semver = "*"
size = "*"
thiserror = "*"
tokio = { version = "*", features = ["fs", "io-util", "macros", "process", "rt-multi-thread", "signal", "time"] }
tracing = "*"
tracing-subscriber = { version = "*", features = ["env-filter"] }
which = "*"
