[package]
name = "mathfont"
version = "0.1.0"
edition = "2021"
publish = false

[dependencies]
ttf-parser = "*"
owned_ttf_parser = "*"
utf16string = "*"
serde = { version = "*", features = ["derive"] }
serde_json = "*"
