[package]
name = "rrandr"
version = "0.1.0"
edition = "2021"
publish = false

[dependencies]
x11rb = { version = "0.13", features = ["randr", "render"] }
serde = { version = "1", features = ["derive"] }
toml = "0.8"
log = "0.4"
async-channel = "2"
gtk4 = "0.9"
gdk4 = "0.9"
glib = "0.20"
gio = "0.20"
cairo-rs = "0.20"
pango = "0.20"
pangocairo = "0.20"
gettext-rs = "0.7"
