[package]
name = "wasapi"
version = "0.1.0"
edition = "2021"
publish = false

[dependencies]
windows = { version = "=0.23.0", features = ["Win32_Foundation", "Win32_Media_Audio_CoreAudio", "Win32_Media_Multimedia", "Win32_Security", "Win32_Storage_StructuredStorage", "Win32_System_Com", "Win32_System_OleAutomation", "Win32_System_PropertiesSystem", "Win32_System_SystemServices", "Win32_System_Threading"] }
windows_macros = "=0.23.0"
widestring = "=0.5.1"
log = "=0.4.35"
