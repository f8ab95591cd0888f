[package]
name = "vmcontrol"
version = "0.1.0"
edition = "2021"
publish = false

[dependencies]
csv = "1"
async-trait = "0.1"
rusoto_core = { version = "0.48", default-features = false, features = ["rustls"] }
rusoto_ec2 = { version = "0.48", default-features = false, features = ["rustls"] }
rusoto_sts = { version = "0.48", default-features = false, features = ["rustls"] }
ssh2 = "0.9"
