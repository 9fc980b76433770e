[package]
name = "servo_bank"
version = "0.1.0"
edition = "2021"
publish = false

[dependencies]
embassy-rp = { version = "=0.10.0", features = ["rp2040", "time-driver", "critical-section-impl"] }
embassy-time = { version = "=0.5.1" }
embassy-executor = { version = "=0.9.1", features = ["arch-std", "executor-thread"] }
smart-leds = { version = "=0.4.0" }
defmt-rtt = { version = "=1.3.1" }
panic-probe = { version = "=1.0.0" }
