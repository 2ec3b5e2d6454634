[package]
name = "jual_beli_jam"
version = "0.1.0"
edition = "2021"
publish = false

[dependencies]
candid = "*"
ic-cdk = "*"
serde = { version = "1", features = ["derive"] }
wasm-bindgen = "*"
web-sys = { version = "*", features = ["HtmlInputElement", "HtmlTextAreaElement"] }
yew = { version = "*", features = ["csr"] }
