[package]
name = "sanctuary_player"
version = "0.1.0"
edition = "2021"
publish = false

[dependencies]
ash = "0.38"
chrono = { version = "=0.4.45", default-features = false, features = ["std", "clock"] }
log = "=0.4.35"
oxideav-core = "=0.1.42"
oxideav-audio-filter = "=0.1.2"
oxideav-sysaudio = "=0.1.1"
pollster = "*"
regex = "=1.13.1"
ringbuf = "=0.4.8"
serde_json = "=1.0.154"
ureq = "=3.5.1"
url = "=2.5.8"
egui = "=0.37.0"
egui-wgpu = "=0.37.0"
egui-winit = "=0.37.0"
winit = "=0.30.13"
