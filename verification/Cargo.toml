[package]
name = "lulezojne"
version = "0.1.0"
edition = "2021"
publish = false

[dependencies]
palette = { version = "=0.7.7", default-features = false, features = ["libm"] }
color_quant = "=1.1.0"
color-thief = "=0.2.2"
iris-lib = "=0.1.0"
kmeans_colors = { version = "=0.7.1", default-features = false }
rscolorq = { version = "=0.2.0", default-features = false }
rand = "0.9"
rayon = "1"
anyhow = "1"
async-trait = "0.1"
clap = { version = "4", features = ["derive"] }
colored = "2"
directories = "5"
handlebars = "4"
image = { version = "0.24", default-features = false, features = ["png", "jpeg"] }
num_cpus = "1"
serde = { version = "1", features = ["derive"] }
serde_json = "1"
shellexpand = "3"
tokio = { version = "1", features = ["full"] }
toml = "0.8"
tracing = "0.1"
tracing-subscriber = "0.3"
