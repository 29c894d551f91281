[package]
name = "myrtio_light_composer"
version = "0.1.0"
edition = "2021"
publish = false

[dependencies]
heapless = "*"
libm = "*"
critical-section = { version = "1", features = ["std"] }

[dev-dependencies]
smart-leds = "*"
