[package]
name = "bevy_variable_property"
version = "0.1.0"
edition = "2021"
publish = false

[dependencies]
rand = "0.8"
bevy_time = "0.11"
bevy_ecs = "0.11"
bevy_math = "0.11"
