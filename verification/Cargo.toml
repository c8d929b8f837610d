[package]
name = "xr_mirror"
version = "0.1.0"
edition = "2021"
publish = false

[dependencies]
drop_bomb = "0.1"
parse_int = "*"
anyhow = "1"
log = "0.4"
env_logger = "0.10"
libc = "0.2"
futures = "0.3"
tokio = { version = "1", features = ["rt-multi-thread", "sync", "macros"] }
x11rb = { version = "0.13", features = ["composite", "damage", "xfixes"] }
zbus = { version = "3", default-features = false, features = ["tokio", "xml"] }
libloading = "0.7"
glium = "0.32"
glutin = "0.29"
glutin_glx_sys = "0.1"
renderdoc = "0.10"
ash = "0.37"
dirs = "5"
