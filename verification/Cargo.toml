[package]
name = "utc_offset"
version = "0.1.0"
edition = "2021"
publish = false

[dependencies]
serde = { version = "1", features = ["derive"] }
winapi = { version = "0.3", features = ["minwinbase", "minwindef", "timezoneapi", "winnt"] }
