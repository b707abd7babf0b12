[package]
name = "xplm_egui"
version = "0.1.0"
edition = "2021"
publish = false

[dependencies]
egui = "*"
euclid = "*"
xplm-sys = "*"
glow = "*"
gl_loader = "*"
bytemuck = "*"
memoffset = "*"
anyhow = "*"
thiserror = "*"
uom = "*"
bitflags = "2"
pastey = "*"
