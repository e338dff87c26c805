[package]
name = "rdbs_interface"
version = "0.1.0"
edition = "2021"
publish = false

[dependencies]
pg_escape = "0.1"
iced = { version = "0.13", default-features = false, features = ["tokio", "tiny-skia"] }
iced_aw = { version = "0.12", default-features = false, features = ["typed_input"] }
tokio = { version = "1", features = ["rt-multi-thread"] }
tokio-postgres = "0.7"
log = "0.4"
log4rs = "1"
gio = "0.20"
thiserror = "2"
