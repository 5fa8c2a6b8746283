[package]
name = "meowbox"
version = "0.1.0"
edition = "2021"
publish = false

[dependencies]
defmt = "*"
embassy-executor = "*"
embassy-sync = "*"
embassy-time = "*"
embedded-graphics = "*"
esp-bootloader-esp-idf = { version = "*", features = ["esp32s3"] }
esp-hal = { version = "*", features = ["esp32s3", "unstable"] }
esp-println = { version = "*", features = ["esp32s3"] }
esp-rtos = { version = "*", features = ["esp32s3", "embassy"] }
heapless = "*"
micromath = "*"
noise_perlin = "*"
rotary-encoder-embedded = "*"
ssd1306 = { version = "*", features = ["async"] }
static_cell = "*"
