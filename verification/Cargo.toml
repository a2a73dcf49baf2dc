[package]
name = "storage_lock"
version = "0.1.0"
edition = "2021"
publish = false

[dependencies]
parity-scale-codec = "=1.3.7"
sp-core = "=2.0.1"
# for app/ and tests/ only
sp-io = "=2.0.1"
# not used itself: sp-core 2.0.1 does not compile with later 0.4 versions of it, which
# bring another version of schnorrkel than the one that sp-core uses
substrate-bip39 = "=0.4.2"
