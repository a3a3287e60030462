[package]
name = "passkey_auth"
version = "0.1.0"
edition = "2021"
publish = false

[dependencies]
webauthn-rs = { version = "=0.5.5", features = ["conditional-ui", "danger-credential-internals"] }
uuid = { version = "=1.27.0", features = ["v7"] }
chrono = "=0.4.45"
uaparser = "=0.6.4"
axum = "=0.7.9"
tokio = { version = "=1.53.2", features = ["rt-multi-thread", "macros", "net"] }
serde = { version = "=1.0.229", features = ["derive"] }
serde_json = "=1.0.151"

[dev-dependencies]
webauthn-authenticator-rs = { version = "=0.5.5", features = ["softpasskey"] }
webauthn-rs-proto = "=0.5.5"
