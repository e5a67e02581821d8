[package]
name = "mintaka"
version = "0.1.0"
edition = "2021"
publish = false

[dependencies]
anyhow = "1"
clap = { version = "4", features = ["derive"] }
libc = "0.2"
portable-pty = "0.9"
ratatui = { version = "0.29", default-features = false, features = ["termwiz"] }
regex = "1"
serde = { version = "1", features = ["derive"] }
termbg = "0.6"
termwiz = "0.22"
toml = "0.9"
winapi = { version = "0.3", features = ["processthreadsapi", "winnt"] }
