[package]
name = "beanal"
version = "0.1.0"
edition = "2021"
publish = false

[dependencies]
semver = "1"
base64 = "0.22"
serde = { version = "1", features = ["derive"] }
serde_json = "1"
ureq = { version = "2", default-features = false, features = ["json", "tls"] }
crossbeam-channel = "0.5"
directories = "5"
tracing = "0.1"
tracing-subscriber = { version = "0.3", default-features = false, features = ["env-filter", "fmt", "std", "time", "local-time"] }
tracing-appender = "0.2"
time = { version = "0.3", features = ["macros", "local-offset"] }
realfft = "3"
num-complex = "0.4"
open = "5"
image = { version = "0.25", default-features = false, features = ["png"] }
egui = "0.29"
