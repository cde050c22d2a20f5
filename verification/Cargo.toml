[package]
name = "frustlib"
version = "0.1.0"
edition = "2021"
publish = false

[dependencies]
chrono = "=0.4.45"
clap = "2"
# Named only to hold it back: liquid takes any kstring 2.0, and 2.0.5 asks for a compiler newer than 1.95.
kstring = "=2.0.2"
liquid = "0.26"
mime_guess = "2"
pretty-bytes = "0.2"
regex = "=1.13.1"
serde = { version = "1", features = ["derive"] }
termion = "1"
toml = "0.5"
walkdir = "2"
