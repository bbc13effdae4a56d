[package]
name = "tildagon"
version = "0.1.0"
edition = "2021"
publish = false

[dependencies]
heapless = "0.8"
trouble-host = "*"
bt-hci = "*"
embedded-graphics = "0.8"
embedded-hal = "1"
embedded-hal-async = "1"
embedded-hal-bus = "*"
embassy-sync = "*"
embassy-time = "*"
embassy-executor = "*"
embassy-futures = "*"
smart-leds = "*"
static_cell = "*"
mipidsi = "*"
profont = "*"
log = "0.4"
esp-hal = "*"
esp-hal-smartled = "*"
esp-radio = "*"
esp-rtos = "*"
esp-println = "*"
esp-backtrace = "*"
esp-alloc = "*"
esp-bootloader-esp-idf = "*"
