[package]
name = "glow"
version = "0.1.0"
edition = "2021"
publish = false

[dependencies]
heapless = "=0.8.0"
num-rational = { version = "=0.4.2", default-features = false }
libm = "=0.2.16"
embedded-hal = { version = "=0.2.7", features = ["unproven"] }
nb = "=1.1.0"
smart-leds = "=0.3.0"
cortex-m = "=0.7.10"
cortex-m-rt = "=0.7.7"
cortex-m-rtic = "=1.1.4"
systick-monotonic = "=1.0.1"
cortex-m-semihosting = "=0.6.0"
panic-semihosting = "=0.7.0"
panic-halt = "=1.0.0"
panic-itm = "=0.4.2"
stm32f1xx-hal = { version = "=0.10.0", features = ["stm32f103", "rt", "medium"] }
apa102-spi = "=0.3.2"
ws2812-timer-delay = "=0.3.0"
ssd1306 = "=0.7.1"
embedded-graphics = "=0.7.1"
f3 = "*"
stm32f30x-hal = "*"
