[package]
name = "oled_status"
version = "0.1.0"
edition = "2021"
publish = false

[dependencies]
clap = { version = "4", features = ["derive", "env"] }
display-interface = "*"
embedded-graphics = "*"
embedded-hal = "1"
hostname = "*"
i2c-linux = "*"
nix = { version = "*", features = ["fs"] }
ssd1306 = "*"
systemstat = "*"
