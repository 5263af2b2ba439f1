[package]
name = "windows_record"
version = "0.1.0"
edition = "2021"
publish = false

[dependencies]
chrono = "0.4"
env_logger = "0.10"
lazy_static = "1.4"
log = "0.4"
spin_sleep = "1.1"
thiserror = "1.0"
windows = { version = "0.48", features = ["implement", "Foundation", "Win32_Foundation", "Win32_Devices_Properties", "Win32_Graphics_Direct3D", "Win32_Graphics_Direct3D11", "Win32_Graphics_Dxgi", "Win32_Graphics_Dxgi_Common", "Win32_Graphics_Gdi", "Win32_Media_Audio", "Win32_Media_DirectShow", "Win32_Media_KernelStreaming", "Win32_Media_MediaFoundation", "Win32_Media_Multimedia", "Win32_Security", "Win32_System_Com", "Win32_System_Com_StructuredStorage", "Win32_System_Memory", "Win32_System_Ole", "Win32_System_Performance", "Win32_System_Threading", "Win32_System_WinRT", "Win32_System_WinRT_Direct3D11", "Win32_UI_Shell_PropertiesSystem", "Win32_UI_WindowsAndMessaging"] }
