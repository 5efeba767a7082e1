[package]
name = "rvis"
version = "0.1.0"
edition = "2021"
publish = false

[dependencies]
anyhow = "=1.0.104"
byte-slice-cast = "=1.2.3"
clap = "=4.6.7"
glium = "=0.36.0"
gstreamer = "=0.24.5"
gstreamer-app = "=0.24.5"
gstreamer-audio = "=0.24.5"
kstring = "=2.0.2"
rustfft = "=6.4.1"
