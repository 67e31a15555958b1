[package]
name = "sql_shell"
version = "0.1.0"
edition = "2021"
publish = false

[dependencies]
sqlite = "*"
tabled = "0.14"
