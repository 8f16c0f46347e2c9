[package]
name = "zoom_sync"
version = "0.1.0"
edition = "2021"
publish = false

[dependencies]
bpaf = { version = "0.9", features = ["derive"] }
chrono = "=0.4.45"
directories = "*"
either = "1"
evdev = { version = "0.12", features = ["tokio"] }
futures = "0.3"
gif = "*"
gtk = "0.18"
hidapi = { version = "2", default-features = false, features = ["linux-native-basic-udev"] }
humantime-serde = "1"
image = { version = "0.25", default-features = false, features = ["bmp", "gif", "jpeg", "png", "webp"] }
ipinfo = "3"
muda = "0.15"
nvml-wrapper = "0.10"
open-meteo-api = "*"
rayon = "1"
rfd = { version = "0.15", default-features = false, features = ["gtk3"] }
rgb565 = "=0.1.3"
serde = { version = "1", features = ["derive"] }
thiserror = "*"
tokio = { version = "1", features = ["macros", "rt", "rt-multi-thread", "sync", "time"] }
tokio-stream = { version = "0.1", features = ["time"] }
toml = "*"
tray-icon = "0.19"
