[package]
name = "bevy_polyline"
version = "0.1.0"
edition = "2021"
publish = false

[dependencies]
# bevy 0.6's derive macros import syn items gated behind syn's "full"
# feature without declaring it; nothing else in this graph enables it, so
# without the line below bevy_derive and bevy_reflect_derive do not build.
# async-trait 0.1.66 is the last line that enables "full" on syn 1.
async-trait = "=0.1.66"
bevy = { version = "=0.6.1", default-features = false, features = ["bevy_render"] }
naga = "=0.8.5"
