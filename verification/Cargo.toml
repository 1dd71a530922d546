[package]
name = "glide_ffi"
version = "0.1.0"
edition = "2021"
publish = false

[dependencies]
glide-core = "=0.1.1"
glide-core-engine = { version = "=0.1.1", features = ["cluster"] }
glide-logger = "=0.1.1"
tokio = { version = "=1.54.1", features = ["rt-multi-thread"] }
tracing-core = "=0.1.36"
tracing-subscriber = "=0.3.23"
