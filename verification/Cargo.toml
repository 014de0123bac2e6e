[package]
name = "webgl_viewer"
version = "0.1.0"
edition = "2021"
publish = false

[dependencies]
nanoid = "*"
nalgebra = "*"
serde = { version = "*", features = ["derive"] }
serde_json = "*"
thiserror = "*"
derive_builder = "*"
wasm-bindgen = "*"
js-sys = "*"
web-sys = { version = "*", features = [
    "console",
    "MouseEvent",
    "WheelEvent",
    "Touch",
    "TouchEvent",
    "TouchList",
    "WebGl2RenderingContext",
    "WebGlProgram",
    "WebGlShader",
    "WebGlBuffer",
    "WebGlFramebuffer",
    "WebGlRenderbuffer",
    "WebGlTexture",
    "WebGlUniformLocation",
] }
