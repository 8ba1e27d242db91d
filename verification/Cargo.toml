[package]
name = "tempchart"
version = "0.1.0"
edition = "2021"
publish = false

[dependencies]
dotenvy = "0.15"
plotters = { version = "0.3", default-features = false, features = ["bitmap_backend", "bitmap_encoder", "ab_glyph"] }
sqlx = { version = "0.8", default-features = false, features = ["mysql", "runtime-tokio"] }
tokio = { version = "1", features = ["rt-multi-thread", "macros"] }
