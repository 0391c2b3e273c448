[package]
name = "powermeter"
version = "0.1.0"
edition = "2021"
publish = false

[dependencies]
heapless = "=0.7.17"
embedded-graphics = "0.7.1"
profont = "0.6"
eg-seven-segment = "0.1"
st7789 = "=0.7.0"
display-interface-spi = "=0.4.1"
ina219_rs = "=0.5.1"
embedded-hal = "=1.0.0"
embedded-hal-async = "=1.0.0"
embassy-sync = "=0.5.0"
embassy-time = "=0.3.2"
embassy-executor = "=0.5.1"
embassy-embedded-hal = "=0.1.0"
static_cell = "=2.1.1"
esp-hal = "=0.16.1"
esp-alloc = "=0.3.0"
esp-backtrace = "=0.11.1"
esp-println = "=0.10.0"
