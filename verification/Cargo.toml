[package]
name = "lif_neuron"
version = "0.1.0"
edition = "2021"
publish = false

[dependencies]
egui = "=0.27.2"
egui_plot = "=0.27.2"
serde = { version = "=1.0.229", features = ["derive"] }
