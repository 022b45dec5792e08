[package]
name = "cawfoc"
version = "0.1.0"
edition = "2021"
publish = false

[dependencies]
embassy-sync = "=0.8.0"
embassy-time = "=0.5.1"
embassy-executor = { version = "=0.9.1", features = ["arch-std", "executor-thread"] }
embassy-stm32 = { version = "=0.6.0", features = ["stm32g474re", "time-driver-any", "memory-x", "dual-bank"] }
embedded-io-async = "=0.7.0"
defmt = "=1.2.0"
defmt-rtt = "=1.3.1"
panic-probe = { version = "=1.0.0", features = ["print-defmt"] }

[dev-dependencies]
critical-section = { version = "=1.2.0", features = ["std"] }
