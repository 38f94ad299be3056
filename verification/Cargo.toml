[package]
name = "opengl3_hooks"
version = "0.1.0"
edition = "2021"
publish = false

[dependencies]
egui = "0.23"
imgui = "0.11"
imgui-opengl = "*"
parking_lot = "0.12"
tracing = "0.1"
windows = { version = "0.51", features = ["Win32_Foundation", "Win32_Graphics_Gdi", "Win32_Graphics_OpenGL", "Win32_System_LibraryLoader", "Win32_UI_WindowsAndMessaging"] }
