[package]
name = "craftmine"
version = "0.1.0"
edition = "2021"
publish = false

[dependencies]
byteorder = "1"
hashbrown = "0.9"
uuid = { version = "0.8", features = ["v5", "serde"] }
serde = { version = "1", features = ["derive"] }
serde_json = "1"
tokio = { version = "1", features = ["rt", "net", "io-util", "sync", "macros", "time"] }
crossbeam = "0.8"
openssl = "0.10"
structopt = "0.3"
log = "0.4"
env_logger = "0.10"
ctrlc = "3"
num_cpus = "1"
sysinfo = "0.29"
