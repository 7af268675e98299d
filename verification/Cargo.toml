[package]
name = "button_led"
version = "0.1.0"
edition = "2021"
publish = false

[dependencies]
cortex-m = "=0.7.10"
cortex-m-rt = "=0.7.7"
critical-section = "=1.2.0"
cyw43 = "=0.7.0"
cyw43-pio = "=0.10.0"
defmt = "=1.2.0"
defmt-rtt = "=1.3.1"
embassy-executor = { version = "=0.9.1", features = ["defmt"] }
embassy-futures = "=0.1.2"
embassy-rp = { version = "=0.10.0", features = ["rp2040", "time-driver", "critical-section-impl", "defmt"] }
embassy-sync = "=0.8.0"
embassy-time = "=0.5.1"
embedded-alloc = "=0.7.0"
embedded-hal = "=1.0.0"
panic-probe = { version = "=1.0.0", features = ["print-defmt"] }
static_cell = "=2.1.1"
