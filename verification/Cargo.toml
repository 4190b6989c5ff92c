[package]
name = "qtpstream"
version = "0.1.0"
edition = "2021"
publish = false

[dependencies]
flexbuffers = "=2.0.0"
iced_native = "=0.7.0"
bytes = "=1.12.1"
byte-slice-cast = "=1.2.3"
clap = { version = "=4.6.7", features = ["derive"] }
tokio = { version = "=1.54.1", features = ["full"] }
qp2p = "=0.28.7"
winit = "=0.27.5"
winapi = { version = "=0.3.9", features = ["winuser"] }
gstreamer = "=0.18.8"
gstreamer-app = "=0.18.7"
gstreamer-video = "=0.18.7"
public-ip = "=0.2.2"
haphazard = "=0.1.8"
pollster = "=0.2.5"
