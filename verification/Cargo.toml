[package]
name = "winproc"
version = "0.1.0"
edition = "2021"
publish = false

[dependencies]
widestring = "=0.4.3"
winapi = { version = "=0.3.9", features = ["basetsd", "errhandlingapi", "handleapi", "libloaderapi", "minwindef", "processthreadsapi", "psapi", "realtimeapiset", "tlhelp32", "winbase", "winnt"] }
