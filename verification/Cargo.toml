[package]
name = "wdpe"
version = "0.1.0"
edition = "2021"
publish = false

[dependencies]
roxmltree = "*"
lol_html = "*"
html-escape = "*"
url = "*"
ureq = { version = "*", default-features = false }
