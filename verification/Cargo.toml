[package]
name = "helper_loader"
version = "0.1.0"
edition = "2021"
publish = false

[dependencies]
oxc_allocator = "=0.32.0"
oxc_ast = "=0.32.0"
oxc_index = "=0.32.0"
oxc_semantic = "=0.32.0"
oxc_span = "=0.32.0"
oxc_traverse = "=0.32.0"
rustc-hash = "=2.1.3"
serde = { version = "=1.0.229", features = ["derive"] }

[dev-dependencies]
oxc_parser = "=0.32.0"
