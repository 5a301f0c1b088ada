[package]
name = "timetools"
version = "0.1.0"
edition = "2021"
publish = false

[dependencies]
chrono = "=0.4.45"
clap = { version = "=4.6.7", features = ["derive"] }
dateparser = "=0.2.1"
druid = "=0.8.3"
filetime = "=0.2.29"
pretty-duration = "=0.1.1"
windows = { version = "=0.52.0", features = ["Win32_Foundation", "Win32_System_SystemInformation"] }
