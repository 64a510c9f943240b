[package]
name = "ntex_task_list"
version = "0.1.0"
edition = "2021"
publish = false

[dependencies]
chrono = { version = "=0.4.45", features = ["serde"] }
serde = { version = "=1.0.229", features = ["derive"] }
diesel = { version = "=2.3.14", features = ["postgres", "r2d2", "chrono"] }
dotenv = "=0.15.0"
ntex = { version = "2", features = ["tokio"] }
ntex-files = "2"
