[package]
name = "nvim_dispatch"
version = "0.1.0"
edition = "2021"
publish = false

[dependencies]
rmp = "=0.8.8"
rmpv = "=0.4.7"
neovim-lib = "=0.5.4"
gtk = "=0.4.1"
pango = "=0.4.0"
