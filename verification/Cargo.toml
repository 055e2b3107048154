[package]
name = "lottery"
version = "0.1.0"
edition = "2021"
publish = false

[dependencies]
anchor-lang = "=1.2.1"
anchor-spl = "=1.2.1"
bytemuck = "=1.25.2"
switchboard-on-demand = "=0.13.0"
