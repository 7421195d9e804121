[package]
name = "switch_pro_gadget"
version = "0.1.0"
edition = "2021"
publish = false

[dependencies]
anyhow = "=1.0.104"
evdev = "=0.13.2"
hidapi = { version = "=2.6.7", default-features = false, features = ["linux-native-basic-udev"] }
kmod = "=0.5.0"
libc = "=0.2.191"
rusb = "=0.9.4"
