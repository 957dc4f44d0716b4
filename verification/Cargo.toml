[package]
name = "tmpl_text"
version = "0.1.0"
edition = "2021"
publish = false

[dependencies]
data-encoding = "=2.11.1"
gtmpl_value = "=0.5.1"
rand = "*"
