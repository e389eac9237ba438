[package]
name = "bevy_mundy"
version = "0.1.0"
edition = "2021"
publish = false

[dependencies]
mundy = "*"
crossbeam-channel = "*"
bevy_app = "*"
bevy_ecs = "*"
bevy_tasks = "*"
bevy_reflect = "*"
bevy_color = "*"
