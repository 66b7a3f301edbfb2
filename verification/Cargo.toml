[package]
name = "tasinput2"
version = "0.1.0"
edition = "2021"
publish = false

[dependencies]
array-init = "*"
lazy_static = "1"
libc = "0.2"
qt_widgets = "0.4"
thiserror = "1"
