[package]
name = "typst_nif"
version = "0.1.0"
edition = "2021"
publish = false

[dependencies]
rustler = "0.36"
tar = "0.4"
time = "0.3"
typst = "0.13"
typst-kit = { version = "0.13", default-features = false, features = ["fonts"] }
typst-pdf = "0.13"
typst-render = "0.13"
ureq = "2"
zune-inflate = "0.2"
