[package]
name = "cutio"
version = "0.1.0"
edition = "2021"
publish = false

[dependencies]
bytemuck = "1"
eframe = { version = "0.31", default-features = false, features = ["default_fonts", "glow", "x11"] }
gstreamer = "0.23"
gstreamer-app = "0.23"
gstreamer-pbutils = "0.23"
gstreamer-video = "0.23"
image = { version = "0.25", default-features = false, features = ["jpeg", "png"] }
rfd = "0.17"
serde = { version = "1", features = ["derive"] }
serde_json = "1"
