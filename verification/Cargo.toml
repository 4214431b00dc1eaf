[package]
name = "load_balancer"
version = "0.1.0"
edition = "2021"
publish = false

[dependencies]
env_logger = "=0.10.2"
hyper = { version = "=0.14.32", features = ["client", "http1", "runtime", "tcp"] }
log = "=0.4.34"
num_cpus = "=1.17.0"
serde_json = "=1.0.154"
structopt = "=0.3.26"
tokio = { version = "=1.54.1", features = ["io-util", "macros", "net", "rt-multi-thread", "signal", "sync", "time"] }
yew = "=0.18.0"
