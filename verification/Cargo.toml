[package]
name = "person_form"
version = "0.1.0"
edition = "2021"
publish = false

[dependencies]
actix-web = "*"
actix-cors = "*"
env_logger = "*"
log = "*"
