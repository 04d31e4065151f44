[package]
name = "battlebot"
version = "0.1.0"
edition = "2021"
publish = false

[dependencies]
cortex-m-rt = "*"
defmt = "*"
defmt-rtt = "*"
embassy-executor = { version = "*", features = ["arch-std", "executor-thread"] }
embassy-rp = { version = "*", features = ["rp2040"] }
embassy-sync = "*"
embassy-time = "*"
panic-probe = "*"
paste = "*"
pscontroller-rs = "*"
static_cell = "*"
tb6612fng = "*"
