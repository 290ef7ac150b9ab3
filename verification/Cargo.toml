[package]
name = "import_params"
version = "0.1.0"
edition = "2021"
publish = false

[dependencies]
sc-state-db = "*"
structopt = "0.3"
