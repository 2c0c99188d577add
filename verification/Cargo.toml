[package]
name = "haxrs"
version = "0.1.0"
edition = "2021"
publish = false

[dependencies]
zip = { version = "*", default-features = false, features = ["deflate"] }
flate2 = "*"
tar = "*"
regex = "*"
actix-web = { version = "*", default-features = false, features = ["macros", "compress-gzip"] }
actix-files = "*"
actix-cors = "*"
tokio = { version = "*", features = ["macros", "rt-multi-thread"] }
reqwest = { version = "*", default-features = false }
serde = { version = "*", features = ["derive"] }
serde_json = "*"
semver = "*"
dirs = "*"
url = "*"
nix = { version = "*", features = ["signal"] }
procfs = { version = "*", default-features = false }
ctrlc = "*"
