[package]
name = "openapi_requests"
version = "0.1.0"
edition = "2021"
publish = false

[dependencies]
openapiv3 = "0.3.0"
