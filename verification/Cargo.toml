[package]
name = "herdogrelay"
version = "0.1.0"
edition = "2021"
publish = false

[dependencies]
iroh = { version = "*", default-features = false }
libc = "0.2"
quinn = { version = "0.11", default-features = false, features = ["runtime-tokio", "rustls-ring"] }
rand = "0.9"
rcgen = { version = "0.14", features = ["x509-parser"] }
rustls = { version = "0.23", default-features = false, features = ["ring", "std", "tls12"] }
rustls-pemfile = "2"
serde = { version = "1", features = ["derive"] }
serde_json = "1"
sha2 = "0.10"
time = "0.3"
tokio = { version = "1", features = ["fs", "io-util", "macros", "net", "process", "rt-multi-thread", "signal", "sync", "time"] }
tokio-rustls = { version = "0.26", default-features = false, features = ["ring"] }
toml = "0.8"
x509-parser = { version = "*", features = ["verify"] }
