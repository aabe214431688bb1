[package]
name = "moc"
version = "0.1.0"
edition = "2021"
publish = false

[dependencies]
itertools = "*"
cstree = "*"
log = "*"
serde = { version = "1", features = ["derive"] }
ron = "*"
clap = { version = "4", features = ["derive"] }
simple_logger = "*"
