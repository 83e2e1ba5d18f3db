[package]
name = "todomvc"
version = "0.1.0"
edition = "2021"
publish = false

[dependencies]
log = "0.4"
serde = { version = "1", features = ["derive"] }
strum = "0.19"
strum_macros = "0.19"
web-sys = { version = "0.3", features = ["HtmlInputElement"] }
yew = "0.17"
yew-router = "0.14"
