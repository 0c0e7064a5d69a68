[package]
name = "uwb_rs"
version = "0.1.0"
edition = "2021"
publish = false

[dependencies]
cortex-m = "=0.7.10"
cortex-m-rt = "=0.7.7"
defmt = "0.3"
defmt-rtt = "0.3"
dwm1001 = "=0.6.0"
embedded-timeout-macros = "=0.3.0"
heapless = "=0.7.17"
ieee802154 = "=0.6.1"
lis2dh12 = { version = "=0.6.9", features = ["out_f32"] }
nb = "=1.1.0"
panic-probe = "0.3"
