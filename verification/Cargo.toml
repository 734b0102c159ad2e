[package]
name = "slimbus"
version = "0.1.0"
edition = "2021"
publish = false

[dependencies]
zvariant = { version = "=4.2.0", default-features = false, features = ["enumflags2"] }
zbus_names = "=3.0.0"
enumflags2 = "=0.7.12"
serde = { version = "=1.0.229", features = ["derive"] }
rustix = { version = "=1.1.5", features = ["net", "fs", "event"] }
nix = { version = "=0.29.0", features = ["user", "socket", "uio"] }
log = "=0.4.34"
sha1 = "0.10"
