[package]
name = "toysynth"
version = "0.1.0"
edition = "2021"
publish = false

[dependencies]
rand = "0.9"
rand_chacha = "0.9"
wasm-bindgen = "0.2"
wasm-bindgen-futures = "0.4"
console_error_panic_hook = "0.1"
web-sys = { version = "0.3", features = ["AudioBuffer", "AudioBufferSourceNode", "AudioBufferSourceOptions", "AudioContext", "AudioDestinationNode", "AudioNode", "AudioParam", "AudioScheduledSourceNode", "BaseAudioContext", "BiquadFilterNode", "BiquadFilterType", "GainNode", "MessageEvent", "OscillatorNode", "OscillatorType", "Window", "Worker", "console"] }
