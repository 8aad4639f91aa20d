[package]
name = "xml_to_json"
version = "0.1.0"
edition = "2021"
publish = false

[dependencies]
log = "=0.4.34"
serde_json = { version = "=1.0.154", features = ["preserve_order"] }
serde-xml-rs = "=0.6.0"
simple_logger = "=4.3.3"
time = { version = "=0.3.55", features = ["macros"] }
xml-rs = "=0.8.29"
