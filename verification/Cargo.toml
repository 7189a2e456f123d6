[package]
name = "cybermanju_drive"
version = "0.1.0"
edition = "2021"
publish = false

[dependencies]
lz4_flex = "=0.11.6"
zstd = "=0.13.4"
brotli = "=7.0.0"
blake3 = "=1.8.7"
chacha20poly1305 = "=0.10.1"
hkdf = "=0.12.4"
hmac = "=0.12.1"
sha2 = "=0.10.9"
x25519-dalek = { version = "=2.0.1", features = ["static_secrets"] }
pqcrypto-mlkem = "=0.1.1"
pqcrypto-traits = "=0.3.5"
rand_core = { version = "=0.6.4", features = ["getrandom"] }
base64 = "=0.22.1"
uuid = { version = "=1.29.0", features = ["v4"] }
chrono = "=0.4.45"
serde = { version = "=1.0.229", features = ["derive"] }
serde_json = "=1.0.154"
redb = "=2.6.4"
argon2 = "=0.5.3"
jsonwebtoken = "=9.3.1"
log = "=0.4.35"
env_logger = { version = "=0.11.11", default-features = false }
url = "=2.5.8"
mime_guess = "=2.0.5"
infer = "=0.16.0"
walkdir = "=2.5.0"
kamadak-exif = "=0.5.5"
image = { version = "=0.25.10", default-features = false, features = ["jpeg", "png"] }
rayon = "=1.12.0"
ml-dsa = "0.0.4"
