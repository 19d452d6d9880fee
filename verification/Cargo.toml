[package]
name = "winit_gtk"
version = "0.1.0"
edition = "2021"
publish = false

[dependencies]
crossbeam-channel = "0.5"
cursor-icon = "1"
dpi = "0.1"
gdk = "0.18"
gio = "0.18"
glib = "0.18"
gtk = "0.18"
libc = "0.2"
log = "0.4"
rustix = { version = "0.38", features = ["process", "thread"] }
smol_str = "0.2"
