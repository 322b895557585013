[package]
name = "isolang"
version = "0.1.0"
edition = "2021"
publish = false

[dependencies]
phf = "=0.11.3"
phf_generator = "=0.11.3"
serde = "=1.0.229"
diesel = "=2.3.14"
