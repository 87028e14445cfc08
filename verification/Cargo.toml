[package]
name = "itm_defmt"
version = "0.1.0"
edition = "2021"
publish = false

[dependencies]
anyhow = "1"
clap = { version = "4", features = ["derive"] }
defmt-decoder = { version = "=0.3.7", features = ["unstable"] }
log = "0.4"
