[package]
name = "ft_kalman"
version = "0.1.0"
edition = "2021"
publish = false

[dependencies]
nalgebra = "*"
thiserror = "*"
