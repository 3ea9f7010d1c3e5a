[package]
name = "chess3d"
version = "0.1.0"
edition = "2021"
publish = false

[dependencies]
bevy = { version = "=0.18.1", default-features = false, features = ["std", "multi_threaded", "async_executor", "bevy_asset", "bevy_log", "bevy_state", "bevy_window", "bevy_color", "bevy_camera", "bevy_mesh", "bevy_image", "bevy_shader", "bevy_text", "default_font", "bevy_light", "bevy_render", "bevy_core_pipeline", "bevy_pbr", "bevy_gltf", "bevy_scene", "bevy_ui", "bevy_ui_render", "bevy_picking", "mesh_picking", "ui_picking"] }
