[package]
name = "todo_logic"
version = "0.1.0"
edition = "2021"
publish = false

[dependencies]
chrono = "=0.4.45"
warp = "=0.3.7"
tower-http = { version = "=0.4.4", features = ["redirect"] }
hyper = "=0.14.32"
sxd-xpath = "=0.4.2"
xpath_reader = "=0.5.3"
libxml = "=0.2.16"
execute = "=0.3.0"
typenum = "=1.20.1"
async-std = "=1.13.2"
mysql_async = { version = "=0.37.1", default-features = false, features = ["minimal-rust"] }
ldap3 = { version = "=0.12.1", default-features = false, features = ["sync"] }
ldap-rs = "=0.6.0"
tokio = { version = "=1.53.2", features = ["rt-multi-thread", "net", "fs"] }
memoffset = "=0.9.1"
unsafe-libyaml = "=0.2.11"
serde = { version = "=1.0.229", features = ["derive"] }
serde_json = "=1.0.151"
thiserror = "=2.0.21"
