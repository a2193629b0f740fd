[package]
name = "d3d9"
version = "0.1.0"
edition = "2021"
publish = false

[dependencies]
winapi = { version = "0.3", features = ["d3d9", "d3d9types", "d3d9caps", "unknwnbase", "winbase", "winnt", "windef", "wingdi", "guiddef"] }
bitfield = "*"
thiserror = "*"
