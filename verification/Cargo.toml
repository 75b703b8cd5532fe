[package]
name = "fast_async_mutex"
version = "0.1.0"
edition = "2021"
publish = false
