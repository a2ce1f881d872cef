[package]
name = "input_emulator"
version = "0.1.0"
edition = "2021"
publish = false

[dependencies]
color-eyre = "=0.6.5"
enigo = "=0.6.1"
hidg = "=0.2.0"
mouse-keyboard-input = "=0.9.1"
tfc = "=0.7.0"
