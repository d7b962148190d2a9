[package]
name = "beatgrid"
version = "0.1.0"
edition = "2021"
publish = false

[dependencies]
async-std = "*"
console_error_panic_hook = "*"
noise = "*"
wasm-bindgen = "*"
web-sys = { version = "*", features = ["AnalyserNode", "AudioContext", "AudioDestinationNode", "AudioNode", "HtmlAudioElement", "HtmlMediaElement", "MediaElementAudioSourceNode", "Window"] }
