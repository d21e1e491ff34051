[package]
name = "native_sender"
version = "0.1.0"
edition = "2021"
publish = false

[dependencies]
anyhow = "=1.0.104"
clap = { version = "=4.6.7", features = ["derive"] }
dotenvy = "=0.15.7"
reqwest = { version = "=0.12.28", features = ["json"] }
serde = { version = "=1.0.229", features = ["derive"] }
tokio = { version = "=1.54.1", features = ["macros", "rt-multi-thread"] }
scrap = "=0.5.0"
windows = { version = "=0.58.0", features = ["Win32_Foundation", "Win32_Graphics_Dxgi", "Win32_UI_WindowsAndMessaging"] }
