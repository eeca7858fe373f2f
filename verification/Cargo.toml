[package]
name = "python_resource"
version = "0.1.0"
edition = "2021"
publish = false

[dependencies]
python-packaging = "=0.16.0"
simple-file-manifest = "=0.11.0"
starlark = "=0.3.2"
