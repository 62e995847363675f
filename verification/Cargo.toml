[package]
name = "doipdiag"
version = "0.1.0"
edition = "2021"
publish = false

[dependencies]
tokio = { version = "*", features = ["full"] }
doip_rw = "*"
doip_rw_tokio = "*"
serde = { version = "*", features = ["derive"] }
serde_yaml = "*"
evalexpr = "*"
bpaf = { version = "*", features = ["derive"] }
