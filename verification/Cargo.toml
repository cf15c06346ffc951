[package]
name = "termpage"
version = "0.1.0"
edition = "2021"
publish = false

[dependencies]
anyhow = "=1.0.104"
crossterm = "=0.29.0"
headless_chrome = "=1.0.22"
picto = "=0.4.4"
sixel = "=0.3.2"
sixel-sys = "=0.3.1"
termsize = "=0.1.9"
