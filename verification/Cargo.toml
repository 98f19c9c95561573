[package]
name = "theoshot"
version = "0.1.0"
edition = "2021"
publish = false

[dependencies]
image = { version = "=0.25.10", default-features = false, features = ["png"] }
imageproc = { version = "=0.25.1", default-features = false }
ab_glyph = "=0.2.32"
tokio = { version = "=1.54.1", features = ["macros", "rt-multi-thread"] }
url = "=2.5.8"
eframe = { version = "0.29", default-features = false, features = ["default_fonts", "glow", "x11"] }
egui-phosphor = "0.7"
arboard = { version = "=3.7.0", default-features = false, features = ["image-data"] }
ashpd = { version = "0.10", default-features = false, features = ["tokio"] }
