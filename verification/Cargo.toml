[package]
name = "spectrum_monitor"
version = "0.1.0"
edition = "2021"
publish = false

[dependencies]
num-integer = "=0.1.47"
log = "=0.4.34"
num-complex = "=0.4.6"
rustfft = "=6.4.1"
widestring = "=1.2.1"
windows = { version = "=0.61.3", features = [
    "Win32_Foundation",
    "Win32_Media_Audio",
    "Win32_Media_KernelStreaming",
    "Win32_Media_Multimedia",
    "Win32_System_Com",
    "Win32_System_Com_StructuredStorage",
    "Win32_System_Threading",
    "Win32_System_Variant",
    "Win32_Devices_FunctionDiscovery",
    "Win32_UI_Shell_PropertiesSystem",
    "Win32_Security",
] }
windows-core = "=0.61.2"
