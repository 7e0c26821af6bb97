[package]
name = "drriga_agent"
version = "0.1.0"
edition = "2021"
publish = false

[dependencies]
aes-gcm = "0.10"
hkdf = "0.12"
hmac = "0.12"
sha2 = "0.10"
x25519-dalek = "2"
rand_core = { version = "0.6", features = ["getrandom"] }
rand = "0.8"
zeroize = "1"
jni = "0.21"
log = "0.4"
windows = { version = "0.58", features = ["Win32_Foundation", "Win32_System_Memory", "Win32_Storage_FileSystem", "Win32_System_IO", "Win32_Security"] }
