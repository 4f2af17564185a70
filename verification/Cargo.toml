[package]
name = "skywalking_agent"
version = "0.1.0"
edition = "2021"
publish = false

[dependencies]
chrono = "=0.4.45"
hostname = "=0.4.2"
ipc-channel = "=0.23.0"
libc = "=0.2.191"
once_cell = "=1.21.4"
phper = "=0.17.3"
prost = "=0.13.5"
skywalking = "=0.10.0"
systemstat = "=0.2.7"
tokio = { version = "=1.54.1", features = ["rt-multi-thread", "time"] }
tokio-stream = "=0.1.19"
tonic = "=0.12.3"
tracing = "=0.1.44"
tracing-appender = "=0.2.5"
tracing-subscriber = "=0.3.23"
