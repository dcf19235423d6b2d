[package]
name = "rut"
version = "0.1.0"
edition = "2021"
publish = false

[dependencies]
crossterm = "=0.10.2"
futures = "=0.3.34"
nix = "=0.15.0"
quick-error = "=1.2.3"
riker = "0.4"
riker-patterns = "0.4"
winapi = { version = "=0.3.9", features = ["consoleapi", "errhandlingapi", "handleapi", "minwindef", "processenv", "winbase", "wincon", "winnt", "winuser"] }
