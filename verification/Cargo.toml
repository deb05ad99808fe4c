[package]
name = "gentup"
version = "0.1.0"
edition = "2021"
publish = false

[dependencies]
chrono = "*"
crossterm = "*"
execute = "*"
filetime = "*"
gethostname = "*"
regex = "*"
terminal-spinners = "*"
