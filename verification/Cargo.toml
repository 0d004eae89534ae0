[package]
name = "waybar_module_pacman_updates"
version = "0.1.0"
edition = "2021"
publish = false

[dependencies]
anyhow = "1"
clap = { version = "4", features = ["derive"] }
either = "1"
hex_color = "3"
lenient_semver = "0.4"
regex = "1"
semver = "1"
tokio = { version = "1", features = ["macros", "rt-multi-thread", "time"] }
ureq = { version = "2", features = ["json"] }
