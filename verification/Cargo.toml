[package]
name = "env_gate"
version = "0.1.0"
edition = "2021"
publish = false

[dependencies]
tokio = { version = "=1.54.1", default-features = false, features = ["sync"] }
deno_core = "=0.413.0"
deno_error = "=0.7.1"
deno_permissions = "=0.119.0"
