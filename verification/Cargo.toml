[package]
name = "qmi8658a"
version = "0.1.0"
edition = "2021"
publish = false

[dependencies]
embedded-hal = "1.0"
embedded-hal-bus = "*"
embedded-graphics = "*"
embedded-graphics-framebuf = "*"
mipidsi = "*"
static_cell = "*"
log = "0.4"
axs5106l = "*"
esp-hal = { version = "*", features = ["esp32c6", "unstable"] }
esp-alloc = "*"
esp-println = { version = "*", features = ["esp32c6"] }
esp-bootloader-esp-idf = { version = "*", features = ["esp32c6"] }
