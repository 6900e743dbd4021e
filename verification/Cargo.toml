[package]
name = "mieli"
version = "0.1.0"
edition = "2021"
publish = false

[dependencies]
serde_json = "*"
serde = { version = "*", features = ["derive"] }
clap = { version = "*", features = ["derive", "env"] }
clap_complete = "*"
reqwest = { version = "*", default-features = false, features = ["blocking", "json"] }
miette = "*"
yaup = "*"
atty = "*"
colored_json = "*"
termion = "*"
env_logger = "*"
log = "*"
ctrlc = "*"
dialoguer = "*"
inquire = "*"
tempfile = "*"
time = "*"
byte-unit = "*"
heed = "*"
