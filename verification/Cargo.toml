[package]
name = "aoui"
version = "0.1.0"
edition = "2021"
publish = false

[dependencies]
tlbf = "=0.3.3"
bevy = { version = "=0.12.1", default-features = false }
smallvec = "=1.16.4"
downcast-rs = "=1.2.1"
itertools = "*"
interpolation = "*"
colorthis = "*"
