[package]
name = "hardware_password_manager"
version = "0.1.0"
edition = "2021"
publish = false

[dependencies]
aes-gcm = { version = "=0.10.3", features = ["heapless"] }
heapless = "=0.7.17"
littlefs2 = "=0.8.1"
littlefs2-core = "=0.1.3"
getrandom = { version = "=0.2.17", features = ["custom"] }
log = "=0.4.35"
embedded-storage = "=0.3.2"
esp-storage = "=0.10.0"
esp-hal = "=1.2.2"
esp-rtos = "=0.4.0"
esp-backtrace = "=0.20.0"
esp-println = "=0.18.0"
esp-bootloader-esp-idf = "=0.6.0"
embassy-executor = "=0.10.0"
embassy-time = "=0.5.1"
embassy-usb = "=0.6.0"
usbd-hid = "=0.10.2"
static_cell = "=2.1.1"
embedded-graphics = "=0.8.2"
embedded-hal-bus = "=0.3.0"
mipidsi = "=0.10.0"
