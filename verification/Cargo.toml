[package]
name = "carousel"
version = "0.1.0"
edition = "2021"
publish = false

[dependencies]
gloo-timers = "0.3"
js-sys = "0.3"
web-sys = { version = "0.3", features = ["Blob", "Event", "File", "FileList", "HtmlInputElement", "Url"] }
yew = { version = "0.21", features = ["csr"] }
