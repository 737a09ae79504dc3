[package]
name = "routerify-unixsocket"
version = "3.0.0"
edition = "2021"
publish = false

[dependencies]
hyper = { version = "0.14", features = ["server", "http1"] }
routerify = "3"
tokio = { version = "1", features = ["net"] }
tower = { version = "0.4", features = ["util"] }

[dev-dependencies]
tokio = { version = "1", features = ["net", "rt"] }
