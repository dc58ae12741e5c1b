[package]
name = "monoio-http-client"
version = "0.1.0"
edition = "2021"
publish = false

[dependencies]
bytes = "=1.12.1"
http = "=0.2.12"
local-sync = "=0.1.1"
monoio = "=0.2.4"
monoio-rustls = "=0.3.0"
rustls = "=0.21.12"
service-async = "=0.2.4"
webpki-roots = "=0.23.1"
