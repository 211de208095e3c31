[package]
name = "mail_sender"
version = "0.1.0"
edition = "2021"
rust-version = "1.95"
publish = false

[dependencies]
dotenv = "=0.15.0"
# liquid's key-string type, pulled in through liquid-core.  Held back because
# the later patches of its 2.0 line require a newer rustc than this crate's
# rust-version; nothing here names it directly.
kstring = "=2.0.0"
lettre = { version = "=0.11.23", default-features = false, features = ["smtp-transport", "builder", "rustls-tls"] }
liquid = "=0.26.11"
reqwest = { version = "=0.12.28", default-features = false, features = ["json", "rustls-tls"] }
rocket = { version = "=0.5.1", features = ["json"] }
serde = { version = "=1.0.229", features = ["derive"] }
serde_json = "=1.0.151"
svg2pdf = "=0.13.0"
