[package]
name = "pico_kit"
version = "0.1.0"
edition = "2021"
publish = false

[dependencies]
embassy-time = "=0.5.1"
embassy-executor = { version = "=0.9.1", features = ["arch-std", "executor-thread"] }
embassy-rp = { version = "=0.10.0", features = ["rp235xa", "_test", "binary-info", "time-driver", "critical-section-impl"] }
embassy-sync = "=0.8.0"
embassy-futures = "=0.1.2"
embedded-hal = "=1.0.0"
embedded-hal-bus = "=0.3.0"
embedded-graphics = "=0.8.1"
liquid_crystal = "=0.2.0"
max7219-display = { version = "=0.1.5", features = ["led-matrix", "graphics"] }
mfrc522 = "=0.8.0"
defmt = "=1.2.0"
defmt-rtt = "=1.3.1"
panic-probe = "=1.0.0"
