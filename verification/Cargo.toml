[package]
name = "cbz"
version = "0.1.0"
edition = "2021"
publish = false

[dependencies]
derive_more = { version = "*", features = ["display", "from_str", "debug", "deref", "into"] }
serde = { version = "1", features = ["derive"] }
serde-xml-rs = "*"
serde_json = "1"
zip = { version = "*", default-features = false, features = ["deflate"] }
tar = "*"
sevenz-rust2 = "*"
tempfile = "*"
image = { version = "*", default-features = false, features = ["png", "jpeg", "gif"] }
thiserror = "*"
log = "*"

[dev-dependencies]
anyhow = "1"
