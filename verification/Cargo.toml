[package]
name = "odt2pdf"
version = "0.1.0"
edition = "2021"
publish = false

[dependencies]
rust-crypto = "0.2"
config = "0.1"
iron = "0.6"
router = "0.6"
params = "0.8"
staticfile = "0.5"
mount = "0.4"
docopt = "0.6"
rustc-serialize = "0.3"
fern = "0.3"
log = "0.3"
time = "0.1"
