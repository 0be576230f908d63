[package]
name = "polars_hash"
version = "0.1.0"
edition = "2021"
publish = false

[dependencies]
blake3 = "=1.8.7"
bytemuck = "=1.25.2"
geohash = "=0.13.2"
h3o = "=0.11.0"
hex = "=0.4.3"
md5 = "=0.8.1"
mur3 = "=0.1.0"
sha1 = "0.10"
sha2 = "0.10"
sha256 = { version = "=1.6.0", default-features = false }
sha3 = "0.10"
uuid = { version = "=1.27.0", features = ["v5"] }
wyhash = "=0.6.0"
xxhash-rust = { version = "=0.8.19", features = ["xxh32", "xxh64", "xxh3"] }
