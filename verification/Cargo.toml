[package]
name = "virtual_yubihsm"
version = "0.1.0"
edition = "2021"
publish = false

[dependencies]
ciborium = "0.2"
const-oid = "0.10"
der = { version = "0.8", features = ["derive", "alloc", "oid"] }
getrandom = "0.3"
gpiocdev-uapi = "0.7"
libc = "0.2"
p256 = { version = "0.14", features = ["ecdh"] }
serde = { version = "1", features = ["derive"] }
spki = { version = "0.8", features = ["alloc"] }
subtle = "2"
x509-cert = { version = "0.3", features = ["builder", "std"] }
zeroize = "1"

[dev-dependencies]
aes = "*"
cmac = "*"
sha2 = "*"
