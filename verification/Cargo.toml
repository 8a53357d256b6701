[package]
name = "luminus_auth"
version = "0.1.0"
edition = "2021"
publish = false

[dependencies]
cookie = "*"
htmlescape = "0.3.1"
rand = "*"
reqwest = { version = "0.12", default-features = false, features = ["blocking", "native-tls"] }
select = "*"
serde_json = "1"
serde_urlencoded = "*"
url = "2"
