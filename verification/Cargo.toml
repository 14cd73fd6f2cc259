[package]
name = "framegraph"
version = "0.1.0"
edition = "2021"
publish = false

[dependencies]
petgraph = "0.6"
multimap = "0.10"
num = "0.4"
ash = "0.38"
gpu-allocator = "0.27"
log = "0.4"
tracing = "0.1"
rayon = "1"
glam = "0.29"
nalgebra-glm = "0.19"
rspirv-reflect = "0.9"
tracy-client = "0.17"
winit = "0.28"
imgui = "0.12"
fixedbitset = "0.4"
