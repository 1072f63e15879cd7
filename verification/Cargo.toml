[package]
name = "windows_capture"
version = "0.1.0"
edition = "2021"
publish = false

[dependencies]
windows-core = "*"
windows-future = "*"
windows-time = "*"
thiserror = "*"
pyo3 = "*"
windows = { version = "*", features = ["Win32_Foundation", "Win32_UI_WindowsAndMessaging", "Win32_Graphics_Dwm", "Win32_Graphics_Gdi", "Win32_System_Threading", "Win32_System_ProcessStatus", "Win32_UI_HiDpi", "Win32_System_LibraryLoader", "Win32_UI_Shell", "Win32_Graphics_Direct3D11", "Win32_Graphics_Dxgi_Common", "Foundation", "Graphics_Capture", "Win32_System_WinRT_Graphics_Capture"] }
