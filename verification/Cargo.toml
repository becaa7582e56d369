[package]
name = "lilac"
version = "0.1.0"
edition = "2021"
publish = false

[dependencies]
anyhow = "1"
claxon = "0.4"
crossterm = "0.17"
glob = "0.3"
hound = "3"
lewton = "0.10"
minimp3 = "0.5"
rayon = "1"
rodio = { version = "0.11", default-features = false }
serde = { version = "1", features = ["derive"] }
serde_json = "1"
structopt = "0.3"
thiserror = "1"
tui = { version = "0.9", default-features = false, features = ["crossterm"] }
