[package]
name = "picotroller"
version = "0.1.0"
edition = "2021"
publish = false

[dependencies]
cortex-m = "=0.7.10"
cortex-m-rt = "=0.7.7"
critical-section = "=1.2.0"
defmt-rtt = "=0.4.2"
fugit = "=0.3.9"
panic-halt = "=0.2.0"
smart-leds = "=0.3.0"
usb-device = "=0.2.9"
usbd-human-interface-device = "=0.4.5"
waveshare-rp2040-zero = "=0.6.0"
ws2812-pio = "=0.6.0"
