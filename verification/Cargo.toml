[package]
name = "cloud_task_executor"
version = "0.1.0"
edition = "2021"
publish = false

[dependencies]
futures = "0.3"
lambda_runtime = "0.8"
log = "0.4"
serde_json = "1"
structopt = "0.3"
tokio = { version = "1", features = ["macros", "rt-multi-thread"] }
warp = "0.3"
