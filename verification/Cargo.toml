[package]
name = "win_kernel_driver"
version = "0.1.0"
edition = "2021"
publish = false

[dependencies]
raw-cpuid = "*"
x86 = "*"
winapi = { version = "0.3", features = ["winnt", "fileapi", "handleapi", "minwindef", "ioapiset", "errhandlingapi", "winioctl", "winerror"] }
windows-service = "*"
