[package]
name = "ratex_ffi"
version = "0.1.0"
edition = "2021"
publish = false

[dependencies]
bytemuck = "=1.25.2"
ratex-layout = "=0.1.15"
ratex-parser = "=0.1.15"
ratex-render = { version = "=0.1.15", features = ["embed-fonts"] }
ratex-svg = { version = "=0.1.15", features = ["embed-fonts"] }
ratex-types = "=0.1.15"
serde_json = "=1.0.154"
tiny-skia = "=0.11.4"
