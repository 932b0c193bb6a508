[package]
name = "polygon_view"
version = "0.1.0"
edition = "2021"
publish = false

[dependencies]
nalgebra = "*"
rosrust = "*"
rosrust_msg = "*"
rustros_tf = "*"
tui = "*"
