[package]
name = "eruption_hotplug_helper"
version = "0.1.0"
edition = "2021"
publish = false

[dependencies]
cfg-if = "1"
clap = { version = "3", features = ["derive"] }
clap_generate = "3"
color-eyre = "*"
eyre = "*"
libc = "0.2"
lockfile = "*"
log = "0.4"
pretty_env_logger = "*"
syslog = "*"
thiserror = "*"
tokio = { version = "1", features = ["macros", "rt-multi-thread"] }
