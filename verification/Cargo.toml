[package]
name = "hd_keys"
version = "0.1.0"
edition = "2021"
publish = false

[dependencies]
k256 = { version = "=0.13.4", default-features = false, features = ["arithmetic", "std"] }
elliptic-curve = { version = "=0.13.8", default-features = false, features = ["arithmetic", "sec1", "std"] }
sec1 = { version = "=0.7.3", default-features = false, features = ["point"] }
hex = "=0.4.3"
hmac = "=0.12.1"
sha2 = "=0.10.9"
ripemd = "=0.1.3"
bs58 = "=0.5.1"
anyhow = "=1.0.104"
snafu = "=0.7.5"
wasm-bindgen = "=0.2.129"
