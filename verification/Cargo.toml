[package]
name = "librepods"
version = "0.1.0"
edition = "2021"
publish = false

[dependencies]
ab_glyph = "=0.2.32"
aes = "=0.9.4"
bluer = { version = "=0.17.4", default-features = false }
gtk4 = "=0.11.5"
iced = { version = "=0.14.0", default-features = false, features = ["tokio", "x11", "tiny-skia"] }
image = { version = "=0.25.10", default-features = false }
imageproc = { version = "=0.27.0", default-features = false, features = ["text"] }
ksni = "=0.3.7"
libadwaita = "=0.9.2"
log = "=0.4.35"
serde = { version = "=1.0.229", features = ["derive"] }
serde_json = "=1.0.154"
tokio = { version = "=1.54.1", features = ["rt", "rt-multi-thread", "sync", "time", "macros"] }
tracing = "=0.1.44"
